//! Promises about the plugins in service.
use vstd::prelude::*;
use wasmtime::component::Component;
use wasmtime::Engine;

use crate::paths::{is_name_of, FilePath};
use crate::text::texts;
use crate::wasm::gateway::GatewayState;
use crate::wasm::kv::{KvError, KvStore, Opening};
use crate::wasm::limits::PluginConfig;
use crate::wasm::loader::{
    loaded_ones, plugin_dir, successes, workspace_path, Aftermath, Candidate, EventOutcome,
    LoadedPlugin, PluginManager, Target,
};
use crate::wasm::plugin::{compiled_by, compiled_from, may_reject};

verus! {

/// A plugin that was put into service is there, with its code and its settings.
pub proof fn law_loaded_plugin_is_in_service<S, V>(
    manager: &mut PluginManager<S, V>,
    name: String,
    plugin: LoadedPlugin,
    r: Result<String, String>,
    after: &PluginManager<S, V>,
    asked: &str,
    dir: &FilePath,
    loaded: bool,
    target: Option<Target>,
)
    requires
        call_ensures(PluginManager::<S, V>::load, (manager, Ok((name, plugin))), r),
        *after == *final(manager),
        asked@ == name@,
        call_ensures(PluginManager::<S, V>::is_loaded, (after, asked), loaded),
        call_ensures(PluginManager::<S, V>::target, (after, dir, asked), target),
    ensures
        final(manager).wf(),
        r matches Ok(said) && said@ == name@,
        loaded,
        target matches Some(t) && {
            &&& t.name@ == name@
            &&& t.component == plugin.component
            &&& t.config == plugin.config
            &&& t.workspace@ == dir@.push(name@).push("workspace"@)
        },
{
}

/// Whether two views of a manager show the same plugin under a name, or none.
pub open spec fn same_plugin<S, V>(
    before: PluginManager<S, V>,
    after: PluginManager<S, V>,
    name: Seq<char>,
) -> bool {
    &&& before.plugins().contains_key(name) == after.plugins().contains_key(name)
    &&& before.plugins().contains_key(name) ==> before.plugins()[name] == after.plugins()[name]
}

/// A plugin that could not be loaded changes nothing, and the reason is told.
pub proof fn law_failed_load_changes_nothing<S, V>(
    manager: &mut PluginManager<S, V>,
    reason: String,
    r: Result<String, String>,
)
    requires
        call_ensures(PluginManager::<S, V>::load, (manager, Err(reason)), r),
    ensures
        final(manager).wf(),
        r matches Err(e) && e@ == reason@,
        final(manager).plugins() == old(manager).plugins(),
        final(manager).failures() == old(manager).failures(),
{
}

/// Taking a plugin out of service leaves those of other names in service as they
/// are, and all failures on record.
pub proof fn law_other_plugins_stay<S, V>(
    manager: &mut PluginManager<S, V>,
    name: &str,
    other: Seq<char>,
)
    requires
        call_ensures(PluginManager::<S, V>::unload, (manager, name), ()),
        other != name@,
    ensures
        final(manager).wf(),
        same_plugin(*old(manager), *final(manager), other),
        final(manager).failures() == old(manager).failures(),
        final(manager).connection() == old(manager).connection(),
        final(manager).stored() == old(manager).stored(),
        final(manager).saved() == old(manager).saved(),
        final(manager).stored_in() == old(manager).stored_in(),
        final(manager).runs_on() == old(manager).runs_on(),
{
}

/// A plugin that was taken out of service is not there any more.
pub proof fn law_unloaded_plugin_is_gone<S, V>(
    manager: &mut PluginManager<S, V>,
    name: &str,
    after: &PluginManager<S, V>,
    loaded: bool,
)
    requires
        call_ensures(PluginManager::<S, V>::unload, (manager, name), ()),
        *after == *final(manager),
        call_ensures(PluginManager::<S, V>::is_loaded, (after, name), loaded),
    ensures
        final(manager).wf(),
        !loaded,
{
}

/// Loading a plugin leaves those of other names as they are, and what the plugins
/// share and how often each failed.
pub proof fn law_loading_leaves_the_rest<S, V>(
    manager: &mut PluginManager<S, V>,
    name: String,
    plugin: LoadedPlugin,
    r: Result<String, String>,
    other: Seq<char>,
)
    requires
        call_ensures(PluginManager::<S, V>::load, (manager, Ok((name, plugin))), r),
    ensures
        final(manager).wf(),
        other != name@ ==> same_plugin(*old(manager), *final(manager), other),
        final(manager).failures() == old(manager).failures(),
        final(manager).connection() == old(manager).connection(),
        final(manager).stored() == old(manager).stored(),
        final(manager).saved() == old(manager).saved(),
        final(manager).stored_in() == old(manager).stored_in(),
        final(manager).runs_on() == old(manager).runs_on(),
{
}

/// Once all plugins are out of service, none is in service; their failures stay on
/// record.
pub proof fn law_unload_all<S, V>(
    manager: &mut PluginManager<S, V>,
    name: &str,
    after: &PluginManager<S, V>,
    loaded: bool,
    names: Vec<String>,
)
    requires
        call_ensures(PluginManager::<S, V>::unload_all, (manager,), ()),
        *after == *final(manager),
        call_ensures(PluginManager::<S, V>::is_loaded, (after, name), loaded),
        call_ensures(PluginManager::<S, V>::loaded_names, (after,), names),
    ensures
        final(manager).wf(),
        !loaded,
        names@.len() == 0,
        final(manager).failures() == old(manager).failures(),
        final(manager).connection() == old(manager).connection(),
        final(manager).stored() == old(manager).stored(),
        final(manager).saved() == old(manager).saved(),
        final(manager).stored_in() == old(manager).stored_in(),
        final(manager).runs_on() == old(manager).runs_on(),
{
    if names@.len() > 0 {
        assert(texts(names@)[0] == names@[0]@);
        assert(texts(names@).to_set().contains(names@[0]@));
    }
}

/// A new version takes the place of the old one, under the name of its file, and
/// starts without failures.
pub proof fn law_new_version_takes_the_place<S, V>(
    manager: &mut PluginManager<S, V>,
    path: &str,
    name: String,
    plugin: LoadedPlugin,
    r: Result<String, String>,
    after: &PluginManager<S, V>,
    asked: &str,
    dir: &FilePath,
    target: Option<Target>,
    failures: u32,
    other: Seq<char>,
)
    requires
        call_ensures(PluginManager::<S, V>::reload_plugin, (manager, path, Ok((name, plugin))), r),
        *after == *final(manager),
        r matches Ok(said) ==> asked@ == said@,
        call_ensures(PluginManager::<S, V>::target, (after, dir, asked), target),
        call_ensures(PluginManager::<S, V>::failure_count, (after, asked), failures),
    ensures
        final(manager).wf(),
        r is Ok,
        is_name_of(asked@, path@),
        target matches Some(t) && t.component == plugin.component && t.config == plugin.config
            && t.workspace@ == dir@.push(asked@).push("workspace"@),
        failures == 0,
        other != asked@ ==> same_plugin(*old(manager), *final(manager), other),
        other != asked@ ==> final(manager).failures().contains_key(other) == old(
            manager,
        ).failures().contains_key(other),
        other != asked@ && old(manager).failures().contains_key(other)
            ==> final(manager).failures()[other] == old(manager).failures()[other],
        final(manager).connection() == old(manager).connection(),
        final(manager).stored() == old(manager).stored(),
        final(manager).saved() == old(manager).saved(),
        final(manager).stored_in() == old(manager).stored_in(),
        final(manager).runs_on() == old(manager).runs_on(),
{
}

/// A new version that could not be loaded leaves the old one in service, with its
/// record.
pub proof fn law_old_version_stays<S, V>(
    manager: &mut PluginManager<S, V>,
    path: &str,
    reason: String,
    r: Result<String, String>,
)
    requires
        call_ensures(PluginManager::<S, V>::reload_plugin, (manager, path, Err(reason)), r),
    ensures
        final(manager).wf(),
        r matches Err(e) && e@ == reason@,
        final(manager).plugins() == old(manager).plugins(),
        final(manager).failures() == old(manager).failures(),
{
}

/// The plugin in a file is taken out of service under the name of the file.
pub proof fn law_plugin_of_a_file_is_unloaded<S, V>(
    manager: &mut PluginManager<S, V>,
    path: &str,
    r: String,
    after: &PluginManager<S, V>,
    asked: &str,
    loaded: bool,
    other: Seq<char>,
)
    requires
        call_ensures(PluginManager::<S, V>::unload_by_path, (manager, path), r),
        *after == *final(manager),
        asked@ == r@,
        call_ensures(PluginManager::<S, V>::is_loaded, (after, asked), loaded),
    ensures
        final(manager).wf(),
        is_name_of(r@, path@),
        !loaded,
        other != r@ ==> same_plugin(*old(manager), *final(manager), other),
        final(manager).failures() == old(manager).failures(),
{
}

/// The version that a new one takes the place of is the one in service under the
/// name of the file; there is none before the new one was loaded.
pub proof fn law_replaced_version<S, V>(
    manager: &PluginManager<S, V>,
    dir: &FilePath,
    path: &str,
    loaded: bool,
    r: Option<Target>,
    asked: &str,
    target: Option<Target>,
)
    requires
        call_ensures(PluginManager::<S, V>::replaced, (manager, dir, path, loaded), r),
        r matches Some(t) ==> asked@ == t.name@,
        call_ensures(PluginManager::<S, V>::target, (manager, dir, asked), target),
    ensures
        !loaded ==> r is None,
        r matches Some(t) ==> {
            &&& is_name_of(t.name@, path@)
            &&& target matches Some(u) && t.component == u.component && t.config == u.config
                && t.workspace@ == u.workspace@
        },
        loaded && r is None ==> exists|name: Seq<char>| #[trigger]
            is_name_of(name, path@) && !manager.plugins().contains_key(name),
{
}

/// An event goes to every plugin in service, once each, and to no other.
pub proof fn law_event_goes_to_every_plugin<S, V>(
    manager: &PluginManager<S, V>,
    dir: &FilePath,
    r: Vec<Target>,
    asked: &str,
    loaded: bool,
    i: int,
    j: int,
)
    requires
        call_ensures(PluginManager::<S, V>::targets, (manager, dir), r),
        call_ensures(PluginManager::<S, V>::is_loaded, (manager, asked), loaded),
    ensures
        loaded <==> exists|k: int| 0 <= k < r@.len() && #[trigger] r@[k].name@ == asked@,
        0 <= i < j < r@.len() ==> r@[i].name@ != r@[j].name@,
        0 <= i < r@.len() ==> {
            &&& manager.plugins().contains_key(r@[i].name@)
            &&& r@[i].component == manager.plugins()[r@[i].name@].component
            &&& r@[i].config == manager.plugins()[r@[i].name@].config
            &&& r@[i].workspace@ == dir@.push(r@[i].name@).push("workspace"@)
        },
{
    let names = crate::wasm::loader::target_names(r@);
    assert(names.len() == r@.len());
    if 0 <= i < j < r@.len() {
        assert(names[i] == r@[i].name@ && names[j] == r@[j].name@);
    }
    if loaded {
        assert(names.to_set().contains(asked@));
        let k = choose|k: int| 0 <= k < names.len() && names[k] == asked@;
        assert(r@[k].name@ == asked@);
    }
    if exists|k: int| 0 <= k < r@.len() && #[trigger] r@[k].name@ == asked@ {
        let k = choose|k: int| 0 <= k < r@.len() && #[trigger] r@[k].name@ == asked@;
        assert(names[k] == asked@);
        assert(names.to_set().contains(asked@));
    }
}

/// The names of the plugins in service are listed once each.
pub proof fn law_names_in_service<S, V>(
    manager: &PluginManager<S, V>,
    r: Vec<String>,
    asked: &str,
    loaded: bool,
    i: int,
    j: int,
)
    requires
        call_ensures(PluginManager::<S, V>::loaded_names, (manager,), r),
        call_ensures(PluginManager::<S, V>::is_loaded, (manager, asked), loaded),
    ensures
        loaded <==> exists|k: int| 0 <= k < r@.len() && #[trigger] r@[k]@ == asked@,
        0 <= i < j < r@.len() ==> r@[i]@ != r@[j]@,
{
    let names = texts(r@);
    assert(names.len() == r@.len());
    if 0 <= i < j < r@.len() {
        assert(names[i] == r@[i]@ && names[j] == r@[j]@);
    }
    if loaded {
        assert(names.to_set().contains(asked@));
        let k = choose|k: int| 0 <= k < names.len() && names[k] == asked@;
        assert(r@[k]@ == asked@);
    }
    if exists|k: int| 0 <= k < r@.len() && #[trigger] r@[k]@ == asked@ {
        let k = choose|k: int| 0 <= k < r@.len() && #[trigger] r@[k]@ == asked@;
        assert(names[k] == asked@);
        assert(names.to_set().contains(asked@));
    }
}

/// A failure adds one to the count of its plugin, an event that was handled clears
/// it, and a plugin that was not called keeps it. A plugin goes out of service when
/// its count reaches five. What the plugins stored is saved wherever one was called.
pub proof fn law_failures_are_counted<S, V>(
    manager: &mut PluginManager<S, V>,
    name: &str,
    outcome: EventOutcome,
    r: Aftermath,
    before: &PluginManager<S, V>,
    after: &PluginManager<S, V>,
    earlier: u32,
    later: u32,
)
    requires
        call_ensures(PluginManager::<S, V>::dispatch_event, (manager, name, outcome), r),
        *before == *old(manager),
        *after == *final(manager),
        call_ensures(PluginManager::<S, V>::failure_count, (before, name), earlier),
        call_ensures(PluginManager::<S, V>::failure_count, (after, name), later),
        earlier < u32::MAX,
    ensures
        final(manager).wf(),
        match outcome {
            EventOutcome::Handled => later == 0 && !r.unload && r.save,
            EventOutcome::NotCalled => later == earlier && !r.unload && !r.save,
            _ => later == earlier + 1 && r.unload == (later >= 5) && r.save,
        },
{
}

/// What one plugin does with an event leaves the counts of the others alone, and
/// all plugins in service.
pub proof fn law_counts_are_separate<S, V>(
    manager: &mut PluginManager<S, V>,
    name: &str,
    outcome: EventOutcome,
    r: Aftermath,
    before: &PluginManager<S, V>,
    after: &PluginManager<S, V>,
    other: &str,
    earlier: u32,
    later: u32,
)
    requires
        call_ensures(PluginManager::<S, V>::dispatch_event, (manager, name, outcome), r),
        *before == *old(manager),
        *after == *final(manager),
        other@ != name@,
        call_ensures(PluginManager::<S, V>::failure_count, (before, other), earlier),
        call_ensures(PluginManager::<S, V>::failure_count, (after, other), later),
    ensures
        final(manager).wf(),
        later == earlier,
        final(manager).plugins() == old(manager).plugins(),
        final(manager).connection() == old(manager).connection(),
        final(manager).stored() == old(manager).stored(),
        final(manager).saved() == old(manager).saved(),
        final(manager).stored_in() == old(manager).stored_in(),
        final(manager).runs_on() == old(manager).runs_on(),
{
}

/// What is noted of the connection is what is known of it then, and nothing else
/// changes.
pub proof fn law_ping_is_noted<S, V>(
    manager: &mut PluginManager<S, V>,
    ms: u64,
    after: &PluginManager<S, V>,
    known: &GatewayState<S, V>,
)
    requires
        call_ensures(PluginManager::<S, V>::set_gateway_ping_ms, (manager, ms), ()),
        *after == *final(manager),
        call_ensures(PluginManager::<S, V>::gateway, (after,), known),
    ensures
        known.gateway_ping_ms == ms,
        known.application_id == old(manager).connection().application_id,
        known.shard_senders == old(manager).connection().shard_senders,
        known.shard_count == old(manager).connection().shard_count,
        known.songbird == old(manager).connection().songbird,
        final(manager).serves_like(old(manager)),
{
}

/// The application that is noted is the one that is known then.
pub proof fn law_application_is_noted<S, V>(
    manager: &mut PluginManager<S, V>,
    id: u64,
    after: &PluginManager<S, V>,
    known: &GatewayState<S, V>,
)
    requires
        call_ensures(PluginManager::<S, V>::set_application_id, (manager, id), ()),
        *after == *final(manager),
        call_ensures(PluginManager::<S, V>::gateway, (after,), known),
    ensures
        known.application_id == id,
        known.gateway_ping_ms == old(manager).connection().gateway_ping_ms,
        known.shard_senders == old(manager).connection().shard_senders,
        known.shard_count == old(manager).connection().shard_count,
        known.songbird == old(manager).connection().songbird,
        final(manager).serves_like(old(manager)),
{
}

/// The number of shards that is noted is the one that is known then.
pub proof fn law_shard_count_is_noted<S, V>(
    manager: &mut PluginManager<S, V>,
    count: u64,
    after: &PluginManager<S, V>,
    known: &GatewayState<S, V>,
)
    requires
        call_ensures(PluginManager::<S, V>::set_shard_count, (manager, count), ()),
        *after == *final(manager),
        call_ensures(PluginManager::<S, V>::gateway, (after,), known),
    ensures
        known.shard_count == count,
        known.gateway_ping_ms == old(manager).connection().gateway_ping_ms,
        known.application_id == old(manager).connection().application_id,
        known.shard_senders == old(manager).connection().shard_senders,
        known.songbird == old(manager).connection().songbird,
        final(manager).serves_like(old(manager)),
{
}

/// The senders that are noted are those that are known then, in order.
pub proof fn law_senders_are_noted<S, V>(
    manager: &mut PluginManager<S, V>,
    senders: Vec<S>,
    after: &PluginManager<S, V>,
    known: &GatewayState<S, V>,
)
    requires
        call_ensures(PluginManager::<S, V>::set_shard_senders, (manager, senders), ()),
        *after == *final(manager),
        call_ensures(PluginManager::<S, V>::gateway, (after,), known),
    ensures
        known.shard_senders@ == senders@,
        known.gateway_ping_ms == old(manager).connection().gateway_ping_ms,
        known.application_id == old(manager).connection().application_id,
        known.shard_count == old(manager).connection().shard_count,
        known.songbird == old(manager).connection().songbird,
        final(manager).serves_like(old(manager)),
{
}

/// Voice events go to the driver that was put in place last.
pub proof fn law_driver_gets_voice_events<S, V>(
    manager: &mut PluginManager<S, V>,
    driver: V,
    after: &PluginManager<S, V>,
    known: &GatewayState<S, V>,
    r: Option<&V>,
)
    requires
        call_ensures(PluginManager::<S, V>::set_songbird, (manager, driver), ()),
        *after == *final(manager),
        call_ensures(PluginManager::<S, V>::gateway, (after,), known),
        call_ensures(PluginManager::<S, V>::process_voice_event, (after,), r),
    ensures
        r matches Some(v) && *v == driver,
        known.songbird == Some(driver),
        known.gateway_ping_ms == old(manager).connection().gateway_ping_ms,
        known.application_id == old(manager).connection().application_id,
        known.shard_senders == old(manager).connection().shard_senders,
        known.shard_count == old(manager).connection().shard_count,
        final(manager).serves_like(old(manager)),
{
}

/// Voice events go to the driver that is known, and nowhere where none is.
pub proof fn law_known_driver_gets_voice_events<S, V>(
    manager: &PluginManager<S, V>,
    known: &GatewayState<S, V>,
    r: Option<&V>,
)
    requires
        call_ensures(PluginManager::<S, V>::gateway, (manager,), known),
        call_ensures(PluginManager::<S, V>::process_voice_event, (manager,), r),
    ensures
        match known.songbird {
            Some(driver) => r matches Some(v) && *v == driver,
            None => r is None,
        },
{
}

/// Whatever is noted of the connection, the same plugins are in service and the
/// same things are stored.
pub proof fn law_notes_leave_the_plugins<S, V>(
    before: &PluginManager<S, V>,
    after: &PluginManager<S, V>,
    name: &str,
    earlier: bool,
    later: bool,
    count: u32,
    recount: u32,
)
    requires
        after.serves_like(before),
        call_ensures(PluginManager::<S, V>::is_loaded, (before, name), earlier),
        call_ensures(PluginManager::<S, V>::is_loaded, (after, name), later),
        call_ensures(PluginManager::<S, V>::failure_count, (before, name), count),
        call_ensures(PluginManager::<S, V>::failure_count, (after, name), recount),
    ensures
        later == earlier,
        recount == count,
        same_plugin(*before, *after, name@),
        after.stored() == before.stored(),
        after.saved() == before.saved(),
        after.stored_in() == before.stored_in(),
        after.runs_on() == before.runs_on(),
        after.wf() == before.wf(),
{
}

/// Copies of the senders are as many, and each is a copy of the one in its place.
pub proof fn law_senders_are_copied<S: Clone, V>(
    manager: &PluginManager<S, V>,
    r: Vec<S>,
    known: &GatewayState<S, V>,
    i: int,
)
    requires
        call_ensures(PluginManager::<S, V>::clone_shard_senders, (manager,), r),
        call_ensures(PluginManager::<S, V>::gateway, (manager,), known),
    ensures
        r@.len() == known.shard_senders@.len(),
        0 <= i < r@.len() ==> cloned::<S>(known.shard_senders@[i], r@[i]),
{
}

/// What the manager hands out is what it holds: its engine and its store.
pub proof fn law_manager_hands_out<S, V>(
    manager: &PluginManager<S, V>,
    engine: &Engine,
    kv: &KvStore,
)
    requires
        call_ensures(PluginManager::<S, V>::engine, (manager,), engine),
        call_ensures(PluginManager::<S, V>::kv, (manager,), kv),
    ensures
        *engine == manager.runs_on(),
        kv@ == manager.stored(),
{
}

/// A new manager has no plugins in service, no failures on record and knows nothing
/// of a connection; it runs on the engine and keeps its store in the database that
/// it was given.
pub proof fn law_new_manager<S, V>(
    engine: &Engine,
    opening: Opening,
    manager: PluginManager<S, V>,
    shown: &PluginManager<S, V>,
    name: &str,
    loaded: bool,
    count: u32,
    known: &GatewayState<S, V>,
)
    requires
        call_ensures(
            PluginManager::<S, V>::new,
            (engine, opening),
            Ok::<PluginManager<S, V>, KvError>(manager),
        ),
        *shown == manager,
        call_ensures(PluginManager::<S, V>::is_loaded, (shown, name), loaded),
        call_ensures(PluginManager::<S, V>::failure_count, (shown, name), count),
        call_ensures(PluginManager::<S, V>::gateway, (shown,), known),
    ensures
        opening matches Opening::Opened(d) && manager.stored_in() == d,
        manager.wf(),
        manager.runs_on() == *engine,
        !loaded,
        count == 0,
        known.gateway_ping_ms == 0,
        known.application_id == 0,
        known.shard_senders@.len() == 0,
        known.shard_count == 0,
        known.songbird is None,
{
}

/// A manager is made wherever the store can be opened; what kept the store from
/// being opened is told.
pub proof fn law_no_store_no_manager<S, V>(
    engine: &Engine,
    opening: Opening,
    r: Result<PluginManager<S, V>, KvError>,
)
    requires
        call_ensures(PluginManager::<S, V>::new, (engine, opening), r),
    ensures
        opening matches Opening::NoDirectory(reason) ==> (r matches Err(KvError::Directory(e)) && e
            == reason),
        opening matches Opening::Failed(reason) ==> (r matches Err(KvError::Open(e)) && e
            == reason),
        opening is Opened ==> (r matches Err(e) ==> e is Keyspace),
{
}

/// What is written through the store that the manager hands out is what the manager
/// then holds.
pub proof fn law_writes_reach_the_store<S, V>(
    manager: &mut PluginManager<S, V>,
    kv: &mut KvStore,
)
    requires
        call_ensures(PluginManager::<S, V>::kv_mut, (manager,), kv),
        old(manager).wf(),
    ensures
        old(kv)@ == old(manager).stored(),
        old(kv).wf(),
        final(manager).stored() == final(kv)@,
        final(manager).saved() == final(kv).saved(),
        final(manager).plugins() == old(manager).plugins(),
        final(manager).failures() == old(manager).failures(),
        final(manager).connection() == old(manager).connection(),
        final(manager).runs_on() == old(manager).runs_on(),
{
}

/// What the plugins stored is saved in full, and nothing else changes.
pub proof fn law_manager_saves<S, V>(manager: &mut PluginManager<S, V>, r: Result<(), KvError>)
    requires
        call_ensures(PluginManager::<S, V>::save_kv, (manager,), r),
        old(manager).wf(),
    ensures
        r is Ok ==> final(manager).saved() == old(manager).stored(),
        r is Err ==> final(manager).saved() == old(manager).saved(),
        r matches Err(e) ==> e is Storage,
        final(manager).wf(),
        final(manager).stored() == old(manager).stored(),
        final(manager).stored_in() == old(manager).stored_in(),
        final(manager).plugins() == old(manager).plugins(),
        final(manager).failures() == old(manager).failures(),
        final(manager).connection() == old(manager).connection(),
        final(manager).runs_on() == old(manager).runs_on(),
{
}

/// Of several plugins that are put into service at once the last of each name is in
/// service, and the number that is told is that of all plugins in service.
pub proof fn law_several_are_loaded<S, V>(
    manager: &mut PluginManager<S, V>,
    loaded: Vec<(String, LoadedPlugin)>,
    r: usize,
    last: int,
    other: Seq<char>,
)
    requires
        call_ensures(PluginManager::<S, V>::load_all, (manager, loaded), r),
        0 <= last < loaded@.len(),
        forall|i: int| last < i < loaded@.len() ==> #[trigger] loaded@[i].0@ != loaded@[last].0@,
        forall|i: int| 0 <= i < loaded@.len() ==> #[trigger] loaded@[i].0@ != other,
    ensures
        final(manager).wf(),
        final(manager).plugins().contains_key(loaded@[last].0@),
        final(manager).plugins()[loaded@[last].0@] == loaded@[last].1,
        same_plugin(*old(manager), *final(manager), other),
        r == final(manager).plugins().dom().len(),
        final(manager).failures() == old(manager).failures(),
        final(manager).connection() == old(manager).connection(),
        final(manager).stored() == old(manager).stored(),
        final(manager).saved() == old(manager).saved(),
        final(manager).stored_in() == old(manager).stored_in(),
        final(manager).runs_on() == old(manager).runs_on(),
{
    crate::wasm::loader::law_last_loaded_counts(old(manager).plugins(), loaded@, last);
    crate::wasm::loader::law_loading_keeps_others(old(manager).plugins(), loaded@, other);
}

/// The plugins that could be loaded are all kept, in order, and no others.
pub proof fn law_successes_are_kept(
    results: Seq<Result<(String, LoadedPlugin), String>>,
    plugin: (String, LoadedPlugin),
    reason: String,
)
    ensures
        loaded_ones(Seq::empty()) == Seq::<(String, LoadedPlugin)>::empty(),
        loaded_ones(results.push(Ok(plugin))) == loaded_ones(results).push(plugin),
        loaded_ones(results.push(Err(reason))) == loaded_ones(results),
{
    assert(results.push(Ok(plugin)).drop_last() =~= results);
    assert(results.push(Err(reason)).drop_last() =~= results);
}

/// What is kept of several results is what could be loaded.
pub proof fn law_successes(
    results: Vec<Result<(String, LoadedPlugin), String>>,
    r: Vec<(String, LoadedPlugin)>,
)
    requires
        call_ensures(successes, (results,), r),
    ensures
        r@ == loaded_ones(results@),
{
}

/// Plugins are found in the directory that is named, or in `./plugins`, and each
/// keeps its files in a directory under its name there.
pub proof fn law_places_of_plugins(
    named: String,
    given: FilePath,
    usual: FilePath,
    dir: &FilePath,
    name: &str,
    workspace: FilePath,
)
    requires
        call_ensures(plugin_dir, (Some(named),), given),
        call_ensures(plugin_dir, (None,), usual),
        call_ensures(workspace_path, (dir, name), workspace),
    ensures
        given@ == seq![named@],
        usual@ == seq!["./plugins"@],
        workspace@ == dir@.push(name@).push("workspace"@),
{
}

/// A file whose code was compiled becomes a candidate under the name of the file,
/// with that code; one whose code was not compiled does not, for the reason given.
pub proof fn law_candidates(
    dir: &FilePath,
    path: &str,
    component: Component,
    reason: String,
    made: Result<Candidate, String>,
    refused: Result<Candidate, String>,
)
    requires
        call_ensures(Candidate::new, (dir, path, Ok(component)), made),
        call_ensures(Candidate::new, (dir, path, Err(reason)), refused),
    ensures
        made matches Ok(c) && {
            &&& is_name_of(c.name@, path@)
            &&& c.component == component
            &&& c.workspace@ == dir@.push(c.name@).push("workspace"@)
        },
        refused matches Err(e) && e == reason,
{
}

/// The code of a plugin is compiled from all of its bytes, by the engine of the
/// manager.
pub proof fn law_code_is_compiled<S, V>(
    manager: &PluginManager<S, V>,
    dir: &FilePath,
    path: &str,
    bytes: &Vec<u8>,
    r: Result<Candidate, String>,
    engine: &Engine,
)
    requires
        call_ensures(PluginManager::<S, V>::load_one, (manager, dir, path, bytes), r),
        call_ensures(PluginManager::<S, V>::engine, (manager,), engine),
    ensures
        match r {
            Ok(c) => {
                &&& compiled_from(c.component) == bytes@
                &&& compiled_by(c.component) == *engine
                &&& is_name_of(c.name@, path@)
                &&& c.workspace@ == dir@.push(c.name@).push("workspace"@)
            },
            Err(e) => may_reject(*engine, bytes@, e@),
        },
{
}

/// A candidate that initialized itself is ready for service under its name, with
/// its code and its settings; another is not, and why is told.
pub proof fn law_candidates_finish(
    candidate: Candidate,
    config: PluginConfig,
    refusal: String,
    trap: String,
    done: Result<(String, LoadedPlugin), String>,
    refused: Result<(String, LoadedPlugin), String>,
    trapped: Result<(String, LoadedPlugin), String>,
)
    requires
        call_ensures(Candidate::finish, (candidate, config, Ok(Ok(()))), done),
        call_ensures(Candidate::finish, (candidate, config, Ok(Err(refusal))), refused),
        call_ensures(Candidate::finish, (candidate, config, Err(trap)), trapped),
    ensures
        done matches Ok(p) && p.0 == candidate.name && p.1.component == candidate.component
            && p.1.config == config,
        refused matches Err(e) && e@ == "plugin initialization failed: "@ + refusal@,
        trapped matches Err(e) && e@ == "plugin initialization trapped: "@ + trap@,
{
}

} // verus!
