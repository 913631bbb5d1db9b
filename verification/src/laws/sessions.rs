//! Promises about how the code of plugins is set up, run, held to its limits and
//! taken up anew.
use vstd::prelude::*;
use wasmtime::Engine;

use crate::paths::{extension, file_name, is_name_of, is_portable, names_no_file, FilePath};
use crate::text::texts;
use crate::wasm::host::HostContext;
use crate::wasm::hotreload::{
    collected, handle_file_event, reported_file, FileAction, Round, WatchEvent,
};
use crate::wasm::limits::{
    default_config, default_max_instances, default_max_memories, default_max_memory_bytes,
    default_max_tables, load_plugin_config, ConfigFile, PluginConfig, PluginLimits,
    PluginPermissions, PluginResourceLimiter,
};
use crate::wasm::loader::{Candidate, PluginManager, Target};
use crate::wasm::names::NameMap;
use crate::wasm::plugin::{create_engine, engine_features};
use crate::wasm::session::{
    configure_store, first_stage, initialization, next_replacement, next_stage, Ending, Purpose,
    Replacement, Stage, StoreSettings,
};

verus! {

/// Whether a plugin may do nothing.
pub open spec fn may_do_nothing(p: PluginPermissions) -> bool {
    !p.http && !p.fs_read && !p.fs_write && !p.env && !p.kv
}

/// Whether the limits are the usual ones.
pub open spec fn are_usual(limits: PluginLimits) -> bool {
    &&& limits.max_memory_bytes == 64 * 1024 * 1024
    &&& limits.max_instances == 10
    &&& limits.max_tables == 10
    &&& limits.max_memories == 1
}

/// The settings in a plugin's file count; without them a plugin may do nothing and
/// is held to the usual limits.
pub proof fn law_settings_of_a_plugin(
    config: PluginConfig,
    read: PluginConfig,
    missing: PluginConfig,
    unreadable: PluginConfig,
    invalid: PluginConfig,
)
    requires
        call_ensures(load_plugin_config, (ConfigFile::Read(config),), read),
        call_ensures(load_plugin_config, (ConfigFile::Missing,), missing),
        call_ensures(load_plugin_config, (ConfigFile::Unreadable,), unreadable),
        call_ensures(load_plugin_config, (ConfigFile::Invalid,), invalid),
    ensures
        read == config,
        may_do_nothing(missing.permissions) && are_usual(missing.limits),
        unreadable == missing,
        invalid == missing,
{
}

/// What counts by default is that a plugin may do nothing and is held to the usual
/// limits.
pub proof fn law_defaults(
    permissions: PluginPermissions,
    limits: PluginLimits,
    config: PluginConfig,
    bytes: usize,
    instances: usize,
    tables: usize,
    memories: usize,
)
    requires
        call_ensures(<PluginPermissions as Default>::default, (), permissions),
        call_ensures(<PluginLimits as Default>::default, (), limits),
        call_ensures(<PluginConfig as Default>::default, (), config),
        call_ensures(default_max_memory_bytes, (), bytes),
        call_ensures(default_max_instances, (), instances),
        call_ensures(default_max_tables, (), tables),
        call_ensures(default_max_memories, (), memories),
    ensures
        may_do_nothing(permissions),
        are_usual(limits),
        may_do_nothing(config.permissions) && are_usual(config.limits),
        bytes == 64 * 1024 * 1024,
        instances == 10,
        tables == 10,
        memories == 1,
        may_do_nothing(default_config().permissions) && are_usual(default_config().limits),
{
}

/// A plugin is held to the limits that its limiter was made for: its memory grows
/// up to them and no further, and its tables are not held to any.
pub proof fn law_plugin_is_held_to_its_limits(
    limits: PluginLimits,
    limiter: PluginResourceLimiter,
    shown: &PluginResourceLimiter,
    current: usize,
    desired: usize,
    maximum: Option<usize>,
    memory: bool,
    table: bool,
    instances: usize,
    memories: usize,
    tables: usize,
)
    requires
        call_ensures(PluginResourceLimiter::new, (limits,), limiter),
        *shown == limiter,
        call_ensures(
            PluginResourceLimiter::memory_growing,
            (shown, current, desired, maximum),
            memory,
        ),
        call_ensures(
            PluginResourceLimiter::table_growing,
            (shown, current, desired, maximum),
            table,
        ),
        call_ensures(PluginResourceLimiter::instances, (shown,), instances),
        call_ensures(PluginResourceLimiter::memories, (shown,), memories),
        call_ensures(PluginResourceLimiter::tables, (shown,), tables),
    ensures
        memory <==> desired <= limits.max_memory_bytes,
        table,
        instances == limits.max_instances,
        memories == limits.max_memories,
        tables == limits.max_tables,
{
}

/// A plugin reads and writes files under its workspace, each exactly where it may.
pub proof fn law_files_of_a_plugin(
    client: reqwest::Client,
    workspace: FilePath,
    config: PluginConfig,
    host: HostContext,
    shown: &HostContext,
    path: String,
    read: Result<FilePath, String>,
    written: Result<FilePath, String>,
)
    requires
        call_ensures(HostContext::new, (client, workspace, config), host),
        *shown == host,
        call_ensures(HostContext::fs_read, (shown, path), read),
        call_ensures(HostContext::fs_write, (shown, path), written),
    ensures
        config.permissions.fs_read ==> (read matches Ok(p) && p@ == workspace@.push(path@)),
        !config.permissions.fs_read ==> (read matches Err(e) && e@ == "fs read is not permitted"@),
        config.permissions.fs_write ==> (written matches Ok(p) && p@ == workspace@.push(path@)),
        !config.permissions.fs_write ==> (written matches Err(e) && e@
            == "fs write is not permitted"@),
{
}

/// What a host is made with is what it goes by: the settings, and the limits in
/// them.
pub proof fn law_host_goes_by_its_settings(
    client: reqwest::Client,
    workspace: FilePath,
    config: PluginConfig,
    host: HostContext,
    shown: &HostContext,
    limiter: PluginResourceLimiter,
)
    requires
        call_ensures(HostContext::new, (client, workspace, config), host),
        *shown == host,
        call_ensures(HostContext::limiter, (shown,), limiter),
    ensures
        host.config() == config,
        host.workspace() == workspace@,
        limiter.limits() == config.limits,
{
}

/// A plugin is called in its own workspace and with its own settings, on its way
/// into service and in service.
pub proof fn law_plugin_is_called_with_what_is_its_own(
    candidate: &Candidate,
    target: &Target,
    client: reqwest::Client,
    config: PluginConfig,
    at_first: HostContext,
    later: HostContext,
)
    requires
        call_ensures(Candidate::host, (candidate, client, config), at_first),
        call_ensures(Target::host, (target, client), later),
    ensures
        at_first.config() == config,
        at_first.workspace() == candidate.workspace@,
        at_first.wf(),
        later.config() == target.config,
        later.workspace() == target.workspace@,
        later.wf(),
{
}

/// The engine for plugins runs components, gives them several memories and counts
/// the fuel they burn.
pub proof fn law_engine_for_plugins(r: Result<Engine, wasmtime::Error>)
    requires
        call_ensures(create_engine, (), r),
    ensures
        r matches Ok(engine) ==> engine_features(engine).component_model && engine_features(
            engine,
        ).multi_memory && engine_features(engine).fuel,
{
}

/// A session that is to put a plugin into service begins with its file; the others
/// begin with the store.
pub proof fn law_sessions_begin(initialize: Stage, event: Stage, shutdown: Stage)
    requires
        call_ensures(first_stage, (Purpose::Initialize,), initialize),
        call_ensures(first_stage, (Purpose::HandleEvent,), event),
        call_ensures(first_stage, (Purpose::Shutdown,), shutdown),
    ensures
        initialize == Stage::ReadFile,
        event == Stage::ConfigureStore,
        shutdown == Stage::ConfigureStore,
{
}

/// Where the steps of a session stand in their order.
pub open spec fn place(stage: Stage) -> int {
    match stage {
        Stage::ReadFile => 0,
        Stage::Compile => 1,
        Stage::MakeWorkspace => 2,
        Stage::ConfigureStore => 3,
        Stage::CreateLinker => 4,
        Stage::Instantiate => 5,
        Stage::Call => 6,
        Stage::Done(_) => 7,
    }
}

/// A step that succeeds leads to the one after it. A step that fails ends the
/// session without a call, but for two: a call ends it as called, whatever came of
/// it, and a plugin is told to shut down even where its store could not be set up.
pub proof fn law_steps_of_a_session(
    purpose: Purpose,
    stage: Stage,
    succeeded: Stage,
    failed: Stage,
)
    requires
        call_ensures(next_stage, (purpose, stage, true), succeeded),
        call_ensures(next_stage, (purpose, stage, false), failed),
    ensures
        stage is Done ==> succeeded == stage && failed == stage,
        !(stage is Done) ==> place(succeeded) == place(stage) + 1,
        stage is Call ==> succeeded == Stage::Done(Ending::Called) && failed == Stage::Done(
            Ending::Called,
        ),
        stage is ConfigureStore && purpose is Shutdown ==> failed == Stage::CreateLinker,
        !(stage is Done) && !(stage is Call) && !(stage is ConfigureStore && purpose is Shutdown)
            ==> failed == Stage::Done(Ending::NotStarted),
{
}

/// A new version is loaded first; the version in service is shut down where there
/// is one and the new one was loaded; then the new one is installed.
pub proof fn law_steps_of_a_replacement(
    loaded: bool,
    in_service: bool,
    first: Replacement,
    second: Replacement,
    third: Replacement,
    last: Replacement,
)
    requires
        call_ensures(next_replacement, (Replacement::Load, loaded, in_service), first),
        call_ensures(next_replacement, (Replacement::ShutDownOld, loaded, in_service), second),
        call_ensures(next_replacement, (Replacement::Install, loaded, in_service), third),
        call_ensures(next_replacement, (Replacement::Done, loaded, in_service), last),
    ensures
        first is ShutDownOld <==> loaded && in_service,
        first is Install <==> !(loaded && in_service),
        second is Install,
        third is Done,
        last is Done,
{
}

/// A store is given fifty million units of fuel, yields every ten thousand and
/// lets a call to the host burn a million.
pub proof fn law_store_settings(r: StoreSettings)
    requires
        call_ensures(configure_store, (), r),
    ensures
        r.fuel == 50_000_000,
        r.yield_interval == 10_000,
        r.hostcall_fuel == 1_000_000,
        crate::wasm::session::PLUGIN_CALL_TIMEOUT_SECONDS == 5,
{
}

/// A plugin can be put into service exactly if it was called and did not refuse;
/// otherwise what it said, or what stopped it, is told.
pub proof fn law_initialization(
    refusal: String,
    trap: String,
    done: Result<(), String>,
    refused: Result<(), String>,
    trapped: Result<(), String>,
)
    requires
        call_ensures(initialization, (Ok(Ok(())),), done),
        call_ensures(initialization, (Ok(Err(refusal)),), refused),
        call_ensures(initialization, (Err(trap),), trapped),
    ensures
        done is Ok,
        refused matches Err(e) && e@ == "plugin initialization failed: "@ + refusal@,
        trapped matches Err(e) && e@ == "plugin initialization trapped: "@ + trap@,
{
}

/// A round begins with one file and waits for three tenths of a second.
pub proof fn law_round_begins(
    file: u64,
    now: u128,
    later: u128,
    round: Round,
    shown: &Round,
    left: u128,
    files: Vec<u64>,
)
    requires
        call_ensures(Round::new, (file, now), round),
        *shown == round,
        call_ensures(Round::remaining, (shown, later), left),
        call_ensures(Round::finish, (round,), files),
    ensures
        files@ == seq![file],
        later < now + 300_000_000 ==> later + left == now + 300_000_000,
        later >= now + 300_000_000 ==> left == 0,
{
    reveal_with_fuel(collected, 2);
    assert(seq![file].drop_last() =~= Seq::<u64>::empty());
    assert(collected(seq![file]) =~= seq![file]);
}

/// A change is noted behind those that were, unless its file was, and the round then
/// waits for three tenths of a second more.
pub proof fn law_change_is_noted(
    round: &mut Round,
    file: u64,
    now: u128,
    later: u128,
    r: bool,
    after: &Round,
    left: u128,
    before: Vec<u64>,
    files: Vec<u64>,
)
    requires
        call_ensures(Round::next, (round, WatchEvent::Changed(file), now), r),
        *after == *final(round),
        call_ensures(Round::remaining, (after, later), left),
        call_ensures(Round::finish, (*old(round),), before),
        call_ensures(Round::finish, (*after,), files),
    ensures
        r,
        before@.contains(file) ==> files@ == before@,
        !before@.contains(file) ==> files@ == before@.push(file),
        later < now + 300_000_000 ==> later + left == now + 300_000_000,
        later >= now + 300_000_000 ==> left == 0,
{
}

/// Without a change the round is over, with the files and the deadline that it had.
pub proof fn law_round_ends(
    round: &mut Round,
    event: WatchEvent,
    now: u128,
    r: bool,
    before: Vec<u64>,
    files: Vec<u64>,
)
    requires
        call_ensures(Round::next, (round, event, now), r),
        !(event is Changed),
        call_ensures(Round::finish, (*old(round),), before),
        call_ensures(Round::finish, (*final(round),), files),
    ensures
        !r,
        files@ == before@,
        final(round).deadline() == old(round).deadline(),
{
}

/// A report is about the first file that it names, where that one holds a plugin.
pub proof fn law_reported_file(paths: &Vec<String>, r: Option<String>)
    requires
        call_ensures(reported_file, (paths,), r),
    ensures
        r matches Some(p) ==> paths@.len() > 0 && p@ == paths@[0]@,
        paths@.len() > 0 && is_portable(paths@[0]@) && extension(file_name(paths@[0]@)) == Some(
            "wasm"@,
        ) ==> r is Some,
        paths@.len() > 0 && is_portable(paths@[0]@) && extension(file_name(paths@[0]@)) != Some(
            "wasm"@,
        ) ==> r is None,
        paths@.len() > 0 && names_no_file(paths@[0]@) ==> r is None,
{
}

/// A file that is there is loaded anew; the plugin of one that is gone is taken out
/// of service, if it is in service.
pub proof fn law_changed_file<S, V>(
    manager: &PluginManager<S, V>,
    path: &str,
    there: FileAction,
    gone: FileAction,
    asked: &str,
    loaded: bool,
)
    requires
        call_ensures(handle_file_event::<S, V>, (manager, path, true), there),
        call_ensures(handle_file_event::<S, V>, (manager, path, false), gone),
        is_portable(path@) || names_no_file(path@),
        is_name_of(asked@, path@),
        call_ensures(PluginManager::<S, V>::is_loaded, (manager, asked), loaded),
    ensures
        there is Reload,
        loaded ==> (gone matches FileAction::Unload(name) && name@ == asked@),
        !loaded ==> gone is Ignore,
{
}

/// A value that was put under a name is found there, and nothing else changes.
pub proof fn law_names_hold_what_is_put<T>(
    names: &mut NameMap<T>,
    name: String,
    value: T,
    after: &NameMap<T>,
    asked: &str,
    found: Option<&T>,
    other: Seq<char>,
)
    requires
        call_ensures(NameMap::<T>::insert, (names, name, value), ()),
        *after == *final(names),
        asked@ == name@,
        call_ensures(NameMap::<T>::get, (after, asked), found),
        other != name@,
    ensures
        found matches Some(v) && *v == value,
        final(names)@.contains_key(other) == old(names)@.contains_key(other),
        old(names)@.contains_key(other) ==> final(names)@[other] == old(names)@[other],
{
}

/// A name whose value was removed has none, and nothing else changes.
pub proof fn law_names_lose_what_is_removed<T>(
    names: &mut NameMap<T>,
    name: &str,
    after: &NameMap<T>,
    found: Option<&T>,
    there: bool,
    other: Seq<char>,
)
    requires
        call_ensures(NameMap::<T>::remove, (names, name), ()),
        *after == *final(names),
        call_ensures(NameMap::<T>::get, (after, name), found),
        call_ensures(NameMap::<T>::contains, (after, name), there),
        other != name@,
    ensures
        found is None,
        !there,
        final(names)@.contains_key(other) == old(names)@.contains_key(other),
        old(names)@.contains_key(other) ==> final(names)@[other] == old(names)@[other],
{
}

/// Nothing is found where nothing was put.
pub proof fn law_names_begin_empty<T>(
    names: NameMap<T>,
    shown: &NameMap<T>,
    name: &str,
    found: Option<&T>,
    there: bool,
    count: usize,
)
    requires
        call_ensures(NameMap::<T>::new, (), names),
        *shown == names,
        call_ensures(NameMap::<T>::get, (shown, name), found),
        call_ensures(NameMap::<T>::contains, (shown, name), there),
        call_ensures(NameMap::<T>::len, (shown,), count),
    ensures
        found is None,
        !there,
        count == 0,
{
}

/// The names that are listed are those that have a value, once each.
pub proof fn law_names_are_listed<T>(
    names: &NameMap<T>,
    r: Vec<String>,
    asked: &str,
    there: bool,
    i: int,
    j: int,
)
    requires
        call_ensures(NameMap::<T>::names, (names,), r),
        call_ensures(NameMap::<T>::contains, (names, asked), there),
    ensures
        there <==> exists|k: int| 0 <= k < r@.len() && #[trigger] r@[k]@ == asked@,
        0 <= i < j < r@.len() ==> r@[i]@ != r@[j]@,
{
    let all = texts(r@);
    assert(all.len() == r@.len());
    if 0 <= i < j < r@.len() {
        assert(all[i] == r@[i]@ && all[j] == r@[j]@);
    }
    if there {
        assert(all.to_set().contains(asked@));
        let k = choose|k: int| 0 <= k < all.len() && all[k] == asked@;
        assert(r@[k]@ == asked@);
    }
    if exists|k: int| 0 <= k < r@.len() && #[trigger] r@[k]@ == asked@ {
        let k = choose|k: int| 0 <= k < r@.len() && #[trigger] r@[k]@ == asked@;
        assert(all[k] == asked@);
        assert(all.to_set().contains(asked@));
    }
}

} // verus!
