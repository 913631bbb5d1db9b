//! The plugins in service.
use vstd::prelude::*;
use wasmtime::component::Component;
use wasmtime::Engine;

use crate::paths::{is_name_of, FilePath};
use crate::text::texts;
use crate::wasm::gateway::GatewayState;
use crate::wasm::kv::{KvError, KvStore, Opening};
use crate::wasm::names::NameMap;
use crate::wasm::plugin::{
    compile, compiled_by, compiled_from, may_reject, share_component, share_engine,
};
use crate::wasm::session::initialization;

pub use crate::wasm::host::HostContext;
pub use crate::wasm::limits::{
    PluginConfig, PluginLimits, PluginPermissions, PluginResourceLimiter,
};

verus! {

/// How often in a row a plugin may fail before it is taken out of service.
pub const PLUGIN_FAILURE_THRESHOLD: u32 = 5;

/// A plugin in service.
pub struct LoadedPlugin {
    pub component: Component,
    pub config: PluginConfig,
}

/// A plugin whose code is compiled, on its way into service.
pub struct Candidate {
    pub name: String,
    pub component: Component,
    /// Where it will keep its files.
    pub workspace: FilePath,
}

/// A plugin that is about to be called.
pub struct Target {
    pub name: String,
    pub component: Component,
    pub config: PluginConfig,
    pub workspace: FilePath,
}

/// What came of handing an event to a plugin.
#[derive(Clone, Copy, Debug, PartialEq, Eq, Structural)]
pub enum EventOutcome {
    Handled,
    /// The plugin answered with an error.
    Refused,
    /// The plugin was stopped by a fault of its own or by its limits.
    Trapped,
    TimedOut,
    /// The plugin could not be set up and was not called.
    NotCalled,
}

/// What is left to do after an event was handed to a plugin.
#[derive(Clone, Copy, Debug, PartialEq, Eq, Structural)]
pub struct Aftermath {
    /// Whether the plugin is to be taken out of service.
    pub unload: bool,
    /// Whether what the plugins stored is to be pushed to the disk, once the
    /// plugin is out of service where it is to be.
    pub save: bool,
}

/// Where plugins are found: in `./plugins` unless the environment names another
/// directory.
pub open spec fn plugin_dir_of(value: Option<String>) -> Seq<Seq<char>> {
    seq![
        match value {
            Some(v) => v@,
            None => "./plugins"@,
        },
    ]
}

/// Where a plugin keeps its files.
pub open spec fn workspace_of(plugin_dir: Seq<Seq<char>>, name: Seq<char>) -> Seq<Seq<char>> {
    plugin_dir.push(name).push("workspace"@)
}

/// Where plugins are found, from the variable that names the directory.
pub fn plugin_dir(value: Option<String>) -> (r: FilePath)
    ensures
        r@ == plugin_dir_of(value),
{
    match value {
        Some(v) => FilePath::new(v),
        None => FilePath::new("./plugins".to_owned()),
    }
}

/// Where a plugin keeps its files.
pub fn workspace_path(plugin_dir: &FilePath, name: &str) -> (r: FilePath)
    ensures
        r@ == workspace_of(plugin_dir@, name@),
{
    plugin_dir.join(name).join("workspace")
}

/// How often a plugin failed since it last handled an event.
pub open spec fn failures_of(failures: Map<Seq<char>, u32>, name: Seq<char>) -> u32 {
    if failures.contains_key(name) {
        failures[name]
    } else {
        0
    }
}

/// Whether an outcome counts against the plugin.
pub open spec fn is_failure(outcome: EventOutcome) -> bool {
    outcome is Refused || outcome is Trapped || outcome is TimedOut
}

/// The failures on record after one more event was handed to a plugin.
pub open spec fn recorded(
    failures: Map<Seq<char>, u32>,
    name: Seq<char>,
    outcome: EventOutcome,
) -> Map<Seq<char>, u32> {
    if is_failure(outcome) {
        failures.insert(name, (failures_of(failures, name) + 1) as u32)
    } else if outcome is Handled {
        failures.remove(name)
    } else {
        failures
    }
}

/// Whether a plugin goes out of service for what came of an event.
pub open spec fn exhausted(
    failures: Map<Seq<char>, u32>,
    name: Seq<char>,
    outcome: EventOutcome,
) -> bool {
    is_failure(outcome) && failures_of(failures, name) + 1 >= PLUGIN_FAILURE_THRESHOLD
}

/// How often a plugin failed since it last handled an event, by what came of the
/// events.
pub open spec fn streak(outcomes: Seq<EventOutcome>) -> nat
    decreases outcomes.len(),
{
    if outcomes.len() == 0 || outcomes.last() is Handled {
        0
    } else if is_failure(outcomes.last()) {
        streak(outcomes.drop_last()) + 1
    } else {
        streak(outcomes.drop_last())
    }
}

/// The failures on record after events that ended as `outcomes` says, in order.
pub open spec fn history(
    failures: Map<Seq<char>, u32>,
    name: Seq<char>,
    outcomes: Seq<EventOutcome>,
) -> Map<Seq<char>, u32>
    decreases outcomes.len(),
{
    if outcomes.len() == 0 {
        failures
    } else {
        recorded(history(failures, name, outcomes.drop_last()), name, outcomes.last())
    }
}

/// The plugins in service after new ones were added, later ones in place of
/// earlier ones of the same name.
pub open spec fn with_all(
    plugins: Map<Seq<char>, LoadedPlugin>,
    loaded: Seq<(String, LoadedPlugin)>,
) -> Map<Seq<char>, LoadedPlugin>
    decreases loaded.len(),
{
    if loaded.len() == 0 {
        plugins
    } else {
        with_all(plugins, loaded.drop_last()).insert(loaded.last().0@, loaded.last().1)
    }
}

/// The plugins that could be loaded, in order: one that could not is passed over.
pub open spec fn loaded_ones(results: Seq<Result<(String, LoadedPlugin), String>>) -> Seq<
    (String, LoadedPlugin),
>
    decreases results.len(),
{
    if results.len() == 0 {
        Seq::empty()
    } else {
        match results.last() {
            Ok(plugin) => loaded_ones(results.drop_last()).push(plugin),
            Err(_) => loaded_ones(results.drop_last()),
        }
    }
}

/// The plugins that could be loaded, from what loading each file came to.
pub fn successes(results: Vec<Result<(String, LoadedPlugin), String>>) -> (r: Vec<
    (String, LoadedPlugin),
>)
    ensures
        r@ == loaded_ones(results@),
{
    let ghost all = results@;
    let mut rest = results;
    let mut loaded: Vec<(String, LoadedPlugin)> = Vec::new();
    let ghost mut done: int = 0;
    assert(all.take(0) == Seq::<Result<(String, LoadedPlugin), String>>::empty());
    while rest.len() > 0
        invariant
            0 <= done <= all.len(),
            rest@ == all.skip(done),
            loaded@ == loaded_ones(all.take(done)),
        decreases rest@.len(),
    {
        let result = rest.remove(0);
        proof {
            assert(all.take(done + 1).drop_last() == all.take(done));
            assert(all.take(done + 1).last() == all[done]);
            assert(all.skip(done).remove(0) == all.skip(done + 1));
            done = done + 1;
        }
        match result {
            Ok(plugin) => {
                loaded.push(plugin);
            },
            Err(_) => {},
        }
    }
    assert(all.take(done) == all);
    loaded
}

impl Candidate {
    /// The plugin in a file, given what compiling its code came to.
    pub fn new(plugin_dir: &FilePath, wasm_path: &str, compiled: Result<Component, String>) -> (r:
        Result<Candidate, String>)
        ensures
            match compiled {
                Ok(component) => r matches Ok(c) && {
                    &&& is_name_of(c.name@, wasm_path@)
                    &&& c.component == component
                    &&& c.workspace@ == workspace_of(plugin_dir@, c.name@)
                },
                Err(e) => r == Err::<Candidate, String>(e),
            },
    {
        let name = crate::paths::plugin_name(wasm_path);
        match compiled {
            Ok(component) => {
                let workspace = workspace_path(plugin_dir, name.as_str());
                Ok(Candidate { name, component, workspace })
            },
            Err(e) => Err(e),
        }
    }

    /// What the plugin is given when it is called.
    pub fn host(&self, client: reqwest::Client, config: PluginConfig) -> (r: HostContext)
        ensures
            r.wf(),
            r.workspace() == self.workspace@,
            r.config() == config,
    {
        HostContext::new(client, self.workspace.copy(), config)
    }

    /// The plugin and its name, where its initialization succeeded. The result
    /// of that is what the plugin answered, or what stopped it.
    pub fn finish(self, config: PluginConfig, result: Result<Result<(), String>, String>) -> (r:
        Result<(String, LoadedPlugin), String>)
        ensures
            match result {
                Ok(Ok(())) => r matches Ok(p) && p.0 == self.name && p.1 == (LoadedPlugin {
                    component: self.component,
                    config,
                }),
                Ok(Err(refusal)) => r matches Err(e) && e@ == "plugin initialization failed: "@
                    + refusal@,
                Err(trap) => r matches Err(e) && e@ == "plugin initialization trapped: "@ + trap@,
            },
    {
        match initialization(result) {
            Ok(()) => Ok((self.name, LoadedPlugin { component: self.component, config })),
            Err(e) => Err(e),
        }
    }
}

impl Target {
    /// What the plugin is given when it is called.
    pub fn host(&self, client: reqwest::Client) -> (r: HostContext)
        ensures
            r.wf(),
            r.workspace() == self.workspace@,
            r.config() == self.config,
    {
        HostContext::new(client, self.workspace.copy(), self.config)
    }
}

/// The plugins in service, with what they share. `S` sends commands over a shard;
/// `V` drives voice connections.
pub struct PluginManager<S, V> {
    plugins: NameMap<LoadedPlugin>,
    engine: Engine,
    gateway: GatewayState<S, V>,
    plugin_failures: NameMap<u32>,
    kv: KvStore,
}

impl<S, V> PluginManager<S, V> {
    /// No name occurs twice, neither among the plugins nor among the failures, and
    /// the store is sound.
    pub closed spec fn wf(&self) -> bool {
        self.plugins.wf() && self.plugin_failures.wf() && self.kv.wf()
    }

    /// The plugins in service, by name.
    pub closed spec fn plugins(&self) -> Map<Seq<char>, LoadedPlugin> {
        self.plugins@
    }

    /// The failures on record, by the name of the plugin.
    pub closed spec fn failures(&self) -> Map<Seq<char>, u32> {
        self.plugin_failures@
    }

    /// What is known of the connection.
    pub closed spec fn connection(&self) -> GatewayState<S, V> {
        self.gateway
    }

    /// What the plugins have stored.
    pub closed spec fn stored(&self) -> Map<Seq<u8>, Seq<u8>> {
        self.kv@
    }

    /// What the plugins had stored when the store was last saved.
    pub closed spec fn saved(&self) -> Map<Seq<u8>, Seq<u8>> {
        self.kv.saved()
    }

    /// The database that the store is kept in.
    pub closed spec fn stored_in(&self) -> fjall::Database {
        self.kv.database()
    }

    /// The engine that runs the plugins.
    pub closed spec fn runs_on(&self) -> Engine {
        self.engine
    }

    /// Nothing but the plugins and the failures differs from `other`.
    pub open spec fn shares_with(&self, other: &PluginManager<S, V>) -> bool {
        &&& self.connection() == other.connection()
        &&& self.stored() == other.stored()
        &&& self.saved() == other.saved()
        &&& self.stored_in() == other.stored_in()
        &&& self.runs_on() == other.runs_on()
    }

    /// Nothing but what is known of the connection differs from `other`.
    pub open spec fn serves_like(&self, other: &PluginManager<S, V>) -> bool {
        &&& self.wf() == other.wf()
        &&& self.plugins() == other.plugins()
        &&& self.failures() == other.failures()
        &&& self.stored() == other.stored()
        &&& self.saved() == other.saved()
        &&& self.stored_in() == other.stored_in()
        &&& self.runs_on() == other.runs_on()
    }

    /// A manager without plugins, with the store in the database that was opened.
    pub fn new(engine: &Engine, opening: Opening) -> (r: Result<PluginManager<S, V>, KvError>)
        ensures
            match opening {
                Opening::NoDirectory(reason) => r == Err::<PluginManager<S, V>, KvError>(
                    KvError::Directory(reason),
                ),
                Opening::Failed(e) => r == Err::<PluginManager<S, V>, KvError>(KvError::Open(e)),
                Opening::Opened(d) => match r {
                    Ok(m) => {
                        &&& m.wf()
                        &&& m.plugins() == Map::<Seq<char>, LoadedPlugin>::empty()
                        &&& m.failures() == Map::<Seq<char>, u32>::empty()
                        &&& m.connection().gateway_ping_ms == 0
                        &&& m.connection().application_id == 0
                        &&& m.connection().shard_senders@.len() == 0
                        &&& m.connection().shard_count == 0
                        &&& m.connection().songbird is None
                        &&& m.runs_on() == *engine
                        &&& m.stored_in() == d
                    },
                    Err(e) => e is Keyspace,
                },
            },
    {
        let kv = match KvStore::with_path(opening) {
            Ok(kv) => kv,
            Err(e) => return Err(e),
        };
        Ok(
            PluginManager {
                plugins: NameMap::new(),
                engine: share_engine(engine),
                gateway: GatewayState::new(),
                plugin_failures: NameMap::new(),
                kv,
            },
        )
    }

    /// What is known of the connection.
    pub fn gateway(&self) -> (r: &GatewayState<S, V>)
        ensures
            *r == self.connection(),
    {
        &self.gateway
    }

    /// The engine that runs the plugins.
    pub fn engine(&self) -> (r: &Engine)
        ensures
            *r == self.runs_on(),
    {
        &self.engine
    }

    /// The store that the plugins share.
    pub fn kv(&self) -> (r: &KvStore)
        ensures
            r@ == self.stored(),
    {
        &self.kv
    }

    /// The store that the plugins share, to be written to.
    pub fn kv_mut(&mut self) -> (r: &mut KvStore)
        ensures
            r@ == old(self).stored(),
            r.saved() == old(self).saved(),
            r.database() == old(self).stored_in(),
            old(self).wf() ==> r.wf(),
            final(self).stored() == final(r)@,
            final(self).saved() == final(r).saved(),
            final(self).stored_in() == final(r).database(),
            old(self).wf() && final(r).wf() ==> final(self).wf(),
            final(self).plugins() == old(self).plugins(),
            final(self).failures() == old(self).failures(),
            final(self).connection() == old(self).connection(),
            final(self).runs_on() == old(self).runs_on(),
    {
        &mut self.kv
    }

    /// Notes the round-trip time to the gateway.
    pub fn set_gateway_ping_ms(&mut self, ms: u64)
        ensures
            final(self).connection() == (GatewayState {
                gateway_ping_ms: ms,
                ..old(self).connection()
            }),
            final(self).serves_like(old(self)),
    {
        self.gateway.gateway_ping_ms = ms;
    }

    /// Notes the identifier of the application.
    pub fn set_application_id(&mut self, id: u64)
        ensures
            final(self).connection() == (GatewayState {
                application_id: id,
                ..old(self).connection()
            }),
            final(self).serves_like(old(self)),
    {
        self.gateway.application_id = id;
    }

    /// Notes what sends commands over each shard.
    pub fn set_shard_senders(&mut self, senders: Vec<S>)
        ensures
            final(self).connection() == (GatewayState {
                shard_senders: senders,
                ..old(self).connection()
            }),
            final(self).serves_like(old(self)),
    {
        self.gateway.shard_senders = senders;
    }

    /// Copies of what sends commands over each shard.
    pub fn clone_shard_senders(&self) -> (r: Vec<S>) where S: Clone
        ensures
            r@.len() == self.connection().shard_senders@.len(),
            forall|i: int|
                0 <= i < r@.len() ==> cloned::<S>(
                    self.connection().shard_senders@[i],
                    #[trigger] r@[i],
                ),
    {
        self.gateway.shard_senders.clone()
    }

    /// Notes how many shards there are.
    pub fn set_shard_count(&mut self, count: u64)
        ensures
            final(self).connection() == (GatewayState {
                shard_count: count,
                ..old(self).connection()
            }),
            final(self).serves_like(old(self)),
    {
        self.gateway.shard_count = count;
    }

    /// Puts a voice driver in place.
    pub fn set_songbird(&mut self, songbird: V)
        ensures
            final(self).connection() == (GatewayState {
                songbird: Some(songbird),
                ..old(self).connection()
            }),
            final(self).serves_like(old(self)),
    {
        self.gateway.songbird = Some(songbird);
    }

    /// The voice driver that a voice event goes to, if there is one.
    pub fn process_voice_event(&self) -> (r: Option<&V>)
        ensures
            match r {
                Some(v) => self.connection().songbird == Some(*v),
                None => self.connection().songbird is None,
            },
    {
        match &self.gateway.songbird {
            Some(v) => Some(v),
            None => None,
        }
    }

    /// The name of the plugin in a file.
    pub fn plugin_name(path: &str) -> (r: String)
        ensures
            is_name_of(r@, path@),
    {
        crate::paths::plugin_name(path)
    }

    /// Compiles the code of a plugin, given the path and the contents of its
    /// file.
    pub fn load_one(&self, plugin_dir: &FilePath, wasm_path: &str, bytes: &Vec<u8>) -> (r: Result<
        Candidate,
        String,
    >)
        ensures
            match r {
                Ok(c) => {
                    &&& is_name_of(c.name@, wasm_path@)
                    &&& c.workspace@ == workspace_of(plugin_dir@, c.name@)
                    &&& compiled_from(c.component) == bytes@
                    &&& compiled_by(c.component) == self.runs_on()
                },
                Err(e) => may_reject(self.runs_on(), bytes@, e@),
            },
    {
        Candidate::new(plugin_dir, wasm_path, compile(&self.engine, bytes))
    }

    /// Puts plugins into service, and says how many are in service then.
    pub fn load_all(&mut self, loaded: Vec<(String, LoadedPlugin)>) -> (r: usize)
        requires
            old(self).wf(),
        ensures
            final(self).wf(),
            final(self).plugins() == with_all(old(self).plugins(), loaded@),
            final(self).plugins().dom().finite(),
            r == final(self).plugins().dom().len(),
            final(self).failures() == old(self).failures(),
            final(self).shares_with(old(self)),
    {
        let ghost all = loaded@;
        let mut rest = loaded;
        let ghost mut done: int = 0;
        assert(all.take(0) == Seq::<(String, LoadedPlugin)>::empty());
        while rest.len() > 0
            invariant
                self.wf(),
                0 <= done <= all.len(),
                rest@ == all.skip(done),
                self.plugins() == with_all(old(self).plugins(), all.take(done)),
                self.failures() == old(self).failures(),
                self.shares_with(old(self)),
            decreases rest@.len(),
        {
            let (name, plugin) = rest.remove(0);
            proof {
                assert(all.take(done + 1).drop_last() == all.take(done));
                assert(all.take(done + 1).last() == all[done]);
                assert(all.skip(done).remove(0) == all.skip(done + 1));
                done = done + 1;
            }
            self.plugins.insert(name, plugin);
        }
        assert(all.take(done) == all);
        self.plugins.len()
    }

    /// Puts a plugin into service, if it could be loaded.
    pub fn load(&mut self, result: Result<(String, LoadedPlugin), String>) -> (r: Result<
        String,
        String,
    >)
        requires
            old(self).wf(),
        ensures
            final(self).wf(),
            match result {
                Ok(p) => r matches Ok(name) && name@ == p.0@ && final(self).plugins() == old(
                    self,
                ).plugins().insert(p.0@, p.1),
                Err(e) => r == Err::<String, String>(e) && final(self).plugins() == old(
                    self,
                ).plugins(),
            },
            final(self).failures() == old(self).failures(),
            final(self).shares_with(old(self)),
    {
        match result {
            Ok((name, loaded)) => {
                self.plugins.insert(name.clone(), loaded);
                Ok(name)
            },
            Err(e) => Err(e),
        }
    }

    /// Puts the new version of a plugin into service in place of the old one, and
    /// forgets the failures of the old one. A new version that could not be
    /// loaded changes nothing: the old one stays in service.
    pub fn reload_plugin(
        &mut self,
        wasm_path: &str,
        result: Result<(String, LoadedPlugin), String>,
    ) -> (r: Result<String, String>)
        requires
            old(self).wf(),
        ensures
            final(self).wf(),
            match result {
                Ok(p) => r matches Ok(name) && {
                    &&& is_name_of(name@, wasm_path@)
                    &&& final(self).plugins() == old(self).plugins().insert(name@, p.1)
                    &&& final(self).failures() == old(self).failures().remove(name@)
                },
                Err(e) => {
                    &&& r == Err::<String, String>(e)
                    &&& final(self).plugins() == old(self).plugins()
                    &&& final(self).failures() == old(self).failures()
                },
            },
            final(self).shares_with(old(self)),
    {
        let name = Self::plugin_name(wasm_path);
        match result {
            Ok((_, loaded)) => {
                if self.is_loaded(name.as_str()) {
                    self.unload(name.as_str());
                }
                self.plugins.insert(name.clone(), loaded);
                self.plugin_failures.remove(name.as_str());
                assert(self.plugins() =~= old(self).plugins().insert(name@, loaded));
                Ok(name)
            },
            Err(e) => Err(e),
        }
    }

    /// The version in service that a new version of the plugin in a file takes the
    /// place of, to be shut down first. There is none before the new version was
    /// loaded.
    pub fn replaced(&self, plugin_dir: &FilePath, wasm_path: &str, loaded: bool) -> (r: Option<
        Target,
    >)
        requires
            self.wf(),
        ensures
            match r {
                Some(t) => {
                    &&& loaded
                    &&& is_name_of(t.name@, wasm_path@)
                    &&& is_target(t, self.plugins(), plugin_dir@)
                },
                None => !loaded || exists|name: Seq<char>| #[trigger]
                    is_name_of(name, wasm_path@) && !self.plugins().contains_key(name),
            },
    {
        if !loaded {
            return None;
        }
        let name = Self::plugin_name(wasm_path);
        self.target(plugin_dir, name.as_str())
    }

    /// A plugin in service, ready to be called.
    pub fn target(&self, plugin_dir: &FilePath, name: &str) -> (r: Option<Target>)
        requires
            self.wf(),
        ensures
            match r {
                Some(t) => {
                    &&& self.plugins().contains_key(name@)
                    &&& is_target(t, self.plugins(), plugin_dir@)
                    &&& t.name@ == name@
                },
                None => !self.plugins().contains_key(name@),
            },
    {
        match self.plugins.get(name) {
            Some(loaded) => Some(
                Target {
                    name: name.to_owned(),
                    component: share_component(&loaded.component),
                    config: loaded.config,
                    workspace: workspace_path(plugin_dir, name),
                },
            ),
            None => None,
        }
    }

    /// Takes a plugin out of service. Its failures stay on record.
    pub fn unload(&mut self, name: &str)
        requires
            old(self).wf(),
        ensures
            final(self).wf(),
            final(self).plugins() == old(self).plugins().remove(name@),
            final(self).failures() == old(self).failures(),
            final(self).shares_with(old(self)),
    {
        self.plugins.remove(name);
    }

    /// Takes all plugins out of service. Their failures stay on record.
    pub fn unload_all(&mut self)
        requires
            old(self).wf(),
        ensures
            final(self).wf(),
            final(self).plugins() == Map::<Seq<char>, LoadedPlugin>::empty(),
            final(self).failures() == old(self).failures(),
            final(self).shares_with(old(self)),
    {
        let names = self.loaded_names();
        let mut i: usize = 0;
        while i < names.len()
            invariant
                self.wf(),
                i <= names@.len(),
                texts(names@).to_set() == old(self).plugins().dom(),
                forall|n: Seq<char>| #[trigger]
                    self.plugins().contains_key(n) ==> old(self).plugins().contains_key(n),
                forall|n: Seq<char>, j: int|
                    0 <= j < i && #[trigger] texts(names@)[j] == n ==> !(
                    #[trigger] self.plugins().contains_key(n)),
                self.failures() == old(self).failures(),
                self.shares_with(old(self)),
            decreases names@.len() - i,
        {
            assert(texts(names@)[i as int] == names@[i as int]@);
            self.unload(names[i].as_str());
            i += 1;
        }
        assert forall|n: Seq<char>| !self.plugins().contains_key(n) by {
            if self.plugins().contains_key(n) {
                assert(texts(names@).to_set().contains(n));
                assert(texts(names@).contains(n));
                let j = choose|j: int| 0 <= j < texts(names@).len() && texts(names@)[j] == n;
                assert(texts(names@)[j] == n);
            }
        }
        assert(self.plugins() =~= Map::<Seq<char>, LoadedPlugin>::empty());
    }

    /// Syncs what the plugins stored to the disk.
    pub fn save_kv(&mut self) -> (r: Result<(), KvError>)
        ensures
            match r {
                Ok(_) => old(self).wf() ==> final(self).saved() == old(self).stored(),
                Err(e) => e is Storage && final(self).saved() == old(self).saved(),
            },
            final(self).stored() == old(self).stored(),
            final(self).stored_in() == old(self).stored_in(),
            final(self).wf() == old(self).wf(),
            final(self).plugins() == old(self).plugins(),
            final(self).failures() == old(self).failures(),
            final(self).connection() == old(self).connection(),
            final(self).runs_on() == old(self).runs_on(),
    {
        self.kv.save()
    }

    /// Takes the plugin in a file out of service, and says which one that is.
    pub fn unload_by_path(&mut self, wasm_path: &str) -> (r: String)
        requires
            old(self).wf(),
        ensures
            final(self).wf(),
            is_name_of(r@, wasm_path@),
            final(self).plugins() == old(self).plugins().remove(r@),
            final(self).failures() == old(self).failures(),
            final(self).shares_with(old(self)),
    {
        let name = Self::plugin_name(wasm_path);
        self.unload(name.as_str());
        name
    }

    /// Whether a plugin is in service.
    pub fn is_loaded(&self, name: &str) -> (r: bool)
        requires
            self.wf(),
        ensures
            r == self.plugins().contains_key(name@),
    {
        self.plugins.contains(name)
    }

    /// The names of the plugins in service, each once, in no order that callers
    /// may rely on.
    pub fn loaded_names(&self) -> (r: Vec<String>)
        requires
            self.wf(),
        ensures
            texts(r@).no_duplicates(),
            texts(r@).to_set() == self.plugins().dom(),
    {
        self.plugins.names()
    }

    /// The plugins that an event goes to: all that are in service, each once, in
    /// no order that callers may rely on.
    pub fn targets(&self, plugin_dir: &FilePath) -> (r: Vec<Target>)
        requires
            self.wf(),
        ensures
            target_names(r@).no_duplicates(),
            target_names(r@).to_set() == self.plugins().dom(),
            forall|i: int|
                0 <= i < r@.len() ==> is_target(#[trigger] r@[i], self.plugins(), plugin_dir@),
    {
        let names = self.loaded_names();
        let mut r: Vec<Target> = Vec::new();
        let mut i: usize = 0;
        while i < names.len()
            invariant
                self.wf(),
                i <= names@.len(),
                r@.len() == i,
                texts(names@).to_set() == self.plugins().dom(),
                forall|j: int|
                    0 <= j < i ==> (#[trigger] r@[j]).name@ == names@[j]@ && is_target(
                        r@[j],
                        self.plugins(),
                        plugin_dir@,
                    ),
            decreases names@.len() - i,
        {
            assert(texts(names@)[i as int] == names@[i as int]@);
            assert(texts(names@).to_set().contains(names@[i as int]@));
            match self.target(plugin_dir, names[i].as_str()) {
                Some(t) => {
                    r.push(t);
                },
                None => {},
            }
            i += 1;
        }
        assert(target_names(r@) =~= texts(names@));
        r
    }

    /// How often a plugin failed since it last handled an event.
    pub fn failure_count(&self, name: &str) -> (r: u32)
        requires
            self.wf(),
        ensures
            r == failures_of(self.failures(), name@),
    {
        match self.plugin_failures.get(name) {
            Some(n) => *n,
            None => 0,
        }
    }

    /// Takes note of what came of handing an event to a plugin, and says what is
    /// left to do.
    pub fn dispatch_event(&mut self, name: &str, outcome: EventOutcome) -> (r: Aftermath)
        requires
            old(self).wf(),
            is_failure(outcome) ==> failures_of(old(self).failures(), name@) < u32::MAX,
        ensures
            final(self).wf(),
            r.unload == exhausted(old(self).failures(), name@, outcome),
            r.save == !(outcome is NotCalled),
            final(self).failures() == recorded(old(self).failures(), name@, outcome),
            final(self).plugins() == old(self).plugins(),
            final(self).shares_with(old(self)),
    {
        match outcome {
            EventOutcome::NotCalled => Aftermath { unload: false, save: false },
            EventOutcome::Handled => {
                self.plugin_failures.remove(name);
                Aftermath { unload: false, save: true }
            },
            EventOutcome::Refused | EventOutcome::Trapped | EventOutcome::TimedOut => {
                let count: u32 = self.failure_count(name) + 1;
                self.plugin_failures.insert(name.to_owned(), count);
                Aftermath { unload: count >= PLUGIN_FAILURE_THRESHOLD, save: true }
            },
        }
    }
}

/// Whether a target stands for the plugin in service under its name.
pub open spec fn is_target(
    target: Target,
    plugins: Map<Seq<char>, LoadedPlugin>,
    plugin_dir: Seq<Seq<char>>,
) -> bool {
    &&& plugins.contains_key(target.name@)
    &&& target.component == plugins[target.name@].component
    &&& target.config == plugins[target.name@].config
    &&& target.workspace@ == workspace_of(plugin_dir, target.name@)
}

/// The names of a list of targets.
pub open spec fn target_names(targets: Seq<Target>) -> Seq<Seq<char>> {
    targets.map_values(|t: Target| t.name@)
}

/// The record of a plugin that starts without failures counts those since the
/// last event that it handled.
pub proof fn law_record_counts_the_streak(
    failures: Map<Seq<char>, u32>,
    name: Seq<char>,
    outcomes: Seq<EventOutcome>,
)
    requires
        !failures.contains_key(name),
        outcomes.len() <= u32::MAX,
    ensures
        failures_of(history(failures, name, outcomes), name) == streak(outcomes),
        streak(outcomes) <= outcomes.len(),
    decreases outcomes.len(),
{
    if outcomes.len() > 0 {
        law_record_counts_the_streak(failures, name, outcomes.drop_last());
    }
}

/// A plugin that starts without failures, as every plugin does after a reload, goes
/// out of service exactly when it fails for the fifth time, or more often, without
/// handling an event in between.
pub proof fn law_fifth_failure_unloads(
    failures: Map<Seq<char>, u32>,
    name: Seq<char>,
    outcomes: Seq<EventOutcome>,
    outcome: EventOutcome,
)
    requires
        !failures.contains_key(name),
        outcomes.len() < u32::MAX,
    ensures
        exhausted(history(failures, name, outcomes), name, outcome) <==> is_failure(outcome)
            && streak(outcomes.push(outcome)) >= 5,
{
    law_record_counts_the_streak(failures, name, outcomes);
    assert(outcomes.push(outcome).drop_last() == outcomes);
}

/// An event that a plugin handles clears its record: it takes five more failures
/// to take it out of service.
pub proof fn law_success_clears_the_record(
    failures: Map<Seq<char>, u32>,
    name: Seq<char>,
    outcome: EventOutcome,
)
    ensures
        failures_of(recorded(failures, name, EventOutcome::Handled), name) == 0,
        !exhausted(recorded(failures, name, EventOutcome::Handled), name, outcome),
{
}

/// What a plugin does with an event leaves the records of the others alone.
pub proof fn law_records_are_separate(
    failures: Map<Seq<char>, u32>,
    name: Seq<char>,
    outcome: EventOutcome,
    other: Seq<char>,
)
    requires
        other != name,
    ensures
        failures_of(recorded(failures, name, outcome), other) == failures_of(failures, other),
{
}

/// A file that cannot be loaded stops none of the others: without it the same
/// plugins come into service.
pub proof fn law_failed_file_is_passed_over(
    before: Seq<Result<(String, LoadedPlugin), String>>,
    failed: String,
    after: Seq<Result<(String, LoadedPlugin), String>>,
)
    ensures
        loaded_ones(before.push(Err(failed)) + after) == loaded_ones(before + after),
    decreases after.len(),
{
    let with_it = before.push(Err(failed)) + after;
    let without_it = before + after;
    if after.len() == 0 {
        assert(with_it =~= before.push(Err(failed)));
        assert(with_it.drop_last() =~= before);
        assert(without_it =~= before);
    } else {
        law_failed_file_is_passed_over(before, failed, after.drop_last());
        assert(with_it.drop_last() =~= before.push(Err(failed)) + after.drop_last());
        assert(without_it.drop_last() =~= before + after.drop_last());
    }
}

/// Loading several plugins leaves those of other names as they are.
pub proof fn law_loading_keeps_others(
    plugins: Map<Seq<char>, LoadedPlugin>,
    loaded: Seq<(String, LoadedPlugin)>,
    name: Seq<char>,
)
    requires
        forall|i: int| 0 <= i < loaded.len() ==> #[trigger] loaded[i].0@ != name,
    ensures
        with_all(plugins, loaded).contains_key(name) == plugins.contains_key(name),
        plugins.contains_key(name) ==> with_all(plugins, loaded)[name] == plugins[name],
    decreases loaded.len(),
{
    if loaded.len() > 0 {
        let before = loaded.drop_last();
        assert forall|i: int| 0 <= i < before.len() implies #[trigger] before[i].0@ != name by {
            assert(before[i] == loaded[i]);
        }
        law_loading_keeps_others(plugins, before, name);
        assert(loaded[loaded.len() - 1].0@ != name);
    }
}

/// Of several plugins of one name the one that is loaded last counts.
pub proof fn law_last_loaded_counts(
    plugins: Map<Seq<char>, LoadedPlugin>,
    loaded: Seq<(String, LoadedPlugin)>,
    last: int,
)
    requires
        0 <= last < loaded.len(),
        forall|i: int| last < i < loaded.len() ==> #[trigger] loaded[i].0@ != loaded[last].0@,
    ensures
        with_all(plugins, loaded).contains_key(loaded[last].0@),
        with_all(plugins, loaded)[loaded[last].0@] == loaded[last].1,
    decreases loaded.len(),
{
    if last < loaded.len() - 1 {
        let before = loaded.drop_last();
        assert(before[last] == loaded[last]);
        assert forall|i: int| last < i < before.len() implies #[trigger] before[i].0@
            != before[last].0@ by {
            assert(before[i] == loaded[i]);
        }
        law_last_loaded_counts(plugins, before, last);
        assert(loaded[loaded.len() - 1].0@ != loaded[last].0@);
    }
}

} // verus!
