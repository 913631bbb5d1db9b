use std::time::{SystemTime, UNIX_EPOCH};
use ynsrvcs::wasm::hotreload::{
    handle_file_event, reported_file, FileAction, Round, WatchEvent, RELOAD_DEBOUNCE_NANOS,
};
use ynsrvcs::wasm::kv::{KvError, Opening};
use ynsrvcs::wasm::limits::PluginConfig;
use ynsrvcs::wasm::loader::{
    plugin_dir, successes, Aftermath, Candidate, EventOutcome, LoadedPlugin, PluginManager,
    PLUGIN_FAILURE_THRESHOLD,
};
use ynsrvcs::wasm::names::NameMap;
use ynsrvcs::wasm::plugin::create_engine;
use ynsrvcs::wasm::session::{next_replacement, Replacement};

type Manager = PluginManager<u8, u8>;

/// The bytes of a component that holds nothing.
const EMPTY: [u8; 8] = [0x00, 0x61, 0x73, 0x6d, 0x0d, 0x00, 0x01, 0x00];

fn manager(tag: &str) -> Manager {
    let nanos = SystemTime::now().duration_since(UNIX_EPOCH).unwrap().as_nanos();
    let engine = create_engine().unwrap();
    Manager::new(&engine, opened(format!("/tmp/ynsrvcs-manager-{tag}-{nanos}"))).unwrap()
}

fn opened(dir: String) -> Opening {
    Opening::Opened(fjall::Database::builder(dir).open().unwrap())
}

fn loaded(manager: &Manager, path: &str, kv: bool) -> Result<(String, LoadedPlugin), String> {
    let mut config = PluginConfig::default();
    config.permissions.kv = kv;
    let candidate = manager.load_one(&plugin_dir(None), path, &EMPTY.to_vec())?;
    candidate.finish(config, Ok(Ok(())))
}

fn put(manager: &mut Manager, path: &str, kv: bool) -> String {
    let result = loaded(manager, path, kv);
    manager.load(result).unwrap()
}

fn names(manager: &Manager) -> Vec<String> {
    let mut names = manager.loaded_names();
    names.sort();
    names
}

fn may_use_store(manager: &Manager, name: &str) -> bool {
    manager.target(&plugin_dir(None), name).unwrap().config.permissions.kv
}

#[test]
fn a_candidate_knows_its_name_and_workspace() {
    let manager = manager("candidate");
    let candidate = manager
        .load_one(&plugin_dir(None), "plugins/ping.wasm", &EMPTY.to_vec())
        .unwrap_or_else(|e| panic!("{e}"));
    assert_eq!(candidate.name, "ping");
    assert!(wasmtime::Engine::same(candidate.component.engine(), manager.engine()));
    assert_eq!(candidate.workspace.parts, vec!["./plugins", "ping", "workspace"]);
    let host = candidate.host(reqwest::Client::new(), PluginConfig::default());
    assert_eq!(host.limiter().memories(), 1);
    let refused = candidate.finish(PluginConfig::default(), Ok(Err("no".to_string())));
    assert_eq!(refused.err(), Some("plugin initialization failed: no".to_string()));
}

#[test]
fn code_that_does_not_compile_is_refused() {
    let manager = manager("compile");
    assert!(manager.load_one(&plugin_dir(None), "a.wasm", &vec![1, 2, 3]).is_err());
    let refused = Candidate::new(&plugin_dir(None), "a.wasm", Err("no code".to_string()));
    assert_eq!(refused.err(), Some("no code".to_string()));
}

#[test]
fn code_that_compiles_makes_a_candidate() {
    let engine = create_engine().unwrap();
    let component = wasmtime::component::Component::new(&engine, &EMPTY).unwrap();
    let candidate = Candidate::new(&plugin_dir(None), "p/a.wasm", Ok(component))
        .unwrap_or_else(|e| panic!("{e}"));
    assert_eq!(candidate.name, "a");
    assert_eq!(candidate.workspace.parts, vec!["./plugins", "a", "workspace"]);
    assert!(wasmtime::Engine::same(candidate.component.engine(), &engine));
}

#[test]
fn a_plugin_that_was_loaded_is_in_service() {
    let mut manager = manager("load");
    assert!(!manager.is_loaded("ping"));
    assert_eq!(put(&mut manager, "plugins/ping.wasm", true), "ping");
    assert!(manager.is_loaded("ping"));
    assert!(may_use_store(&manager, "ping"));
    assert_eq!(manager.load(Err("bad".to_string())), Err("bad".to_string()));
    assert_eq!(names(&manager), vec!["ping"]);
}

#[test]
fn a_failed_reload_keeps_the_old_plugin() {
    let mut manager = manager("reload");
    put(&mut manager, "plugins/ping.wasm", false);
    manager.dispatch_event("ping", EventOutcome::Refused);
    let refused = manager.reload_plugin("plugins/ping.wasm", Err("bad".to_string()));
    assert_eq!(refused, Err("bad".to_string()));
    assert!(!may_use_store(&manager, "ping"));
    assert_eq!(manager.failure_count("ping"), 1);

    let next = loaded(&manager, "plugins/ping.wasm", true);
    assert_eq!(manager.reload_plugin("plugins/ping.wasm", next), Ok("ping".to_string()));
    assert!(may_use_store(&manager, "ping"));
    assert_eq!(manager.failure_count("ping"), 0);
    assert_eq!(names(&manager), vec!["ping"]);
}

#[test]
fn a_manager_needs_its_store() {
    let engine = create_engine().unwrap();
    let refused = Manager::new(&engine, Opening::NoDirectory("no room".to_string()));
    assert!(matches!(refused, Err(KvError::Directory(reason)) if reason == "no room"));
    let refused = Manager::new(&engine, Opening::Failed(fjall::Error::Poisoned));
    assert!(matches!(refused, Err(KvError::Open(fjall::Error::Poisoned))));
}

fn steps(loaded: bool, in_service: bool) -> Vec<Replacement> {
    let mut steps = vec![];
    let mut step = Replacement::Load;
    while step != Replacement::Done {
        steps.push(step);
        step = next_replacement(step, loaded, in_service);
    }
    steps
}

#[test]
fn the_old_version_is_shut_down_once_and_after_loading() {
    let full = vec![Replacement::Load, Replacement::ShutDownOld, Replacement::Install];
    let short = vec![Replacement::Load, Replacement::Install];
    assert_eq!(steps(true, true), full);
    assert_eq!(steps(true, false), short);
    assert_eq!(steps(false, true), short);
    assert_eq!(steps(false, false), short);
}

#[test]
fn the_version_in_service_is_the_one_that_is_replaced() {
    let mut manager = manager("replaced");
    let dir = plugin_dir(None);
    assert!(manager.replaced(&dir, "p/a.wasm", true).is_none());
    put(&mut manager, "p/a.wasm", true);
    assert!(manager.replaced(&dir, "p/a.wasm", false).is_none());
    assert!(manager.replaced(&dir, "p/b.wasm", true).is_none());
    let old = manager.replaced(&dir, "p/a.wasm", true).unwrap_or_else(|| panic!("none"));
    assert_eq!(old.name, "a");
    assert!(old.config.permissions.kv);
}

#[test]
fn a_reload_of_a_new_plugin_loads_it() {
    let mut manager = manager("reload-new");
    let next = loaded(&manager, "plugins/new.wasm", true);
    assert_eq!(manager.reload_plugin("plugins/new.wasm", next), Ok("new".to_string()));
    assert_eq!(names(&manager), vec!["new"]);
}

#[test]
fn of_two_plugins_with_one_name_the_later_counts() {
    let mut manager = manager("load-all");
    put(&mut manager, "old.wasm", false);
    let mut all = vec![];
    for (path, kv) in [("a.wasm", false), ("b.wasm", false), ("x/a.wasm", true)] {
        all.push(loaded(&manager, path, kv).unwrap_or_else(|e| panic!("{e}")));
    }
    assert_eq!(manager.load_all(all), 3);
    assert_eq!(names(&manager), vec!["a", "b", "old"]);
    assert!(may_use_store(&manager, "a"));
    assert!(!may_use_store(&manager, "b"));
    assert_eq!(manager.load_all(vec![]), 3);
}

#[test]
fn a_file_that_fails_stops_none_of_the_others() {
    let mut manager = manager("some-fail");
    let mut results = vec![Err("first".to_string())];
    results.push(loaded(&manager, "a.wasm", false));
    results.push(Err("second".to_string()));
    results.push(loaded(&manager, "b.wasm", false));
    let loaded = successes(results);
    assert_eq!(loaded.iter().map(|p| p.0.as_str()).collect::<Vec<&str>>(), vec!["a", "b"]);
    assert_eq!(manager.load_all(loaded), 2);
    assert!(successes(vec![Err("only".to_string())]).is_empty());
}

#[test]
fn a_reloaded_plugin_has_five_failures_again() {
    let mut manager = manager("five-again");
    manager.dispatch_event("other", EventOutcome::Refused);
    for _ in 0..4 {
        manager.dispatch_event("a", EventOutcome::Refused);
    }
    let next = loaded(&manager, "a.wasm", false);
    manager.reload_plugin("a.wasm", next).unwrap();
    for _ in 0..4 {
        assert!(!manager.dispatch_event("a", EventOutcome::Trapped).unload);
    }
    assert!(manager.dispatch_event("a", EventOutcome::Trapped).unload);
    assert_eq!(manager.failure_count("other"), 1);
}

#[test]
fn unloading_takes_one_plugin_or_all() {
    let mut manager = manager("unload");
    for path in ["a.wasm", "b.wasm", "c.wasm"] {
        put(&mut manager, path, false);
    }
    manager.dispatch_event("a", EventOutcome::Trapped);
    manager.unload("a");
    manager.unload("unheard-of");
    assert_eq!(names(&manager), vec!["b", "c"]);
    assert_eq!(manager.failure_count("a"), 1);
    assert!(manager.target(&plugin_dir(None), "a").is_none());
    assert_eq!(manager.unload_by_path("somewhere/b.wasm"), "b");
    assert_eq!(names(&manager), vec!["c"]);
    put(&mut manager, "d.wasm", false);
    manager.unload_all();
    assert!(manager.loaded_names().is_empty());
    assert!(manager.targets(&plugin_dir(None)).is_empty());
    assert_eq!(manager.failure_count("a"), 1);
}

#[test]
fn an_event_goes_to_every_plugin_once() {
    let mut manager = manager("targets");
    put(&mut manager, "a.wasm", true);
    put(&mut manager, "b.wasm", false);
    put(&mut manager, "a.wasm", false);
    let mut targets = manager.targets(&plugin_dir(Some("p".to_string())));
    targets.sort_by(|x, y| x.name.cmp(&y.name));
    assert_eq!(targets.len(), 2);
    assert_eq!(targets[0].name, "a");
    assert!(!targets[0].config.permissions.kv);
    assert_eq!(targets[0].workspace.parts, vec!["p", "a", "workspace"]);
    assert_eq!(targets[1].name, "b");
    assert!(!targets[1].host(reqwest::Client::new()).get_env(Some("x".to_string())).is_some());
}

#[test]
fn the_fifth_failure_in_a_row_unloads() {
    let mut manager = manager("failures");
    assert_eq!(PLUGIN_FAILURE_THRESHOLD, 5);
    let failures = [
        EventOutcome::Refused,
        EventOutcome::Trapped,
        EventOutcome::TimedOut,
        EventOutcome::Refused,
    ];
    for outcome in failures {
        let after = manager.dispatch_event("p", outcome);
        assert_eq!(after, Aftermath { unload: false, save: true });
    }
    assert_eq!(manager.failure_count("p"), 4);
    assert_eq!(manager.failure_count("q"), 0);
    let after = manager.dispatch_event("p", EventOutcome::NotCalled);
    assert_eq!(after, Aftermath { unload: false, save: false });
    assert_eq!(manager.failure_count("p"), 4);
    let after = manager.dispatch_event("p", EventOutcome::TimedOut);
    assert_eq!(after, Aftermath { unload: true, save: true });
    let after = manager.dispatch_event("p", EventOutcome::Refused);
    assert!(after.unload);
}

#[test]
fn an_event_that_is_handled_clears_the_record() {
    let mut manager = manager("cleared");
    for _ in 0..4 {
        manager.dispatch_event("p", EventOutcome::Refused);
    }
    let after = manager.dispatch_event("p", EventOutcome::Handled);
    assert_eq!(after, Aftermath { unload: false, save: true });
    assert_eq!(manager.failure_count("p"), 0);
    for _ in 0..4 {
        assert!(!manager.dispatch_event("p", EventOutcome::Refused).unload);
    }
    assert!(manager.dispatch_event("p", EventOutcome::Refused).unload);
}

#[test]
fn the_manager_keeps_what_is_known_of_the_connection() {
    let mut manager = manager("connection");
    assert!(manager.process_voice_event().is_none());
    manager.set_gateway_ping_ms(7);
    manager.set_application_id(8);
    manager.set_shard_senders(vec![1, 2]);
    manager.set_shard_count(2);
    manager.set_songbird(9);
    assert_eq!(manager.gateway().gateway_ping_ms, 7);
    assert_eq!(manager.gateway().application_id, 8);
    assert_eq!(manager.gateway().shard_count, 2);
    assert_eq!(manager.clone_shard_senders(), vec![1, 2]);
    assert_eq!(manager.process_voice_event(), Some(&9));
}

#[test]
fn the_manager_runs_on_the_engine_it_was_given() {
    let engine = create_engine().unwrap();
    let other = create_engine().unwrap();
    let nanos = SystemTime::now().duration_since(UNIX_EPOCH).unwrap().as_nanos();
    let manager = Manager::new(&engine, opened(format!("/tmp/ynsrvcs-engine-{nanos}"))).unwrap();
    assert!(wasmtime::Engine::same(manager.engine(), &engine));
    assert!(!wasmtime::Engine::same(manager.engine(), &other));
}

#[test]
fn the_manager_keeps_the_store() {
    let mut manager = manager("kv");
    manager.kv_mut().set("s".to_string(), "k".to_string(), vec![1]).unwrap();
    assert_eq!(manager.kv().get("s", "k").unwrap(), Some(vec![1]));
    assert!(manager.save_kv().is_ok());
}

#[test]
fn names_are_kept_once() {
    let mut map = NameMap::new();
    map.insert("a".to_string(), 1);
    map.insert("b".to_string(), 2);
    map.insert("a".to_string(), 3);
    assert_eq!(map.len(), 2);
    assert_eq!(map.get("a"), Some(&3));
    assert_eq!(map.get("c"), None);
    assert!(map.contains("b"));
    map.remove("b");
    map.remove("c");
    assert_eq!(map.names(), vec!["a"]);
}

#[test]
fn a_changed_file_is_reloaded_or_its_plugin_unloaded() {
    let mut manager = manager("files");
    put(&mut manager, "p/a.wasm", false);
    assert!(matches!(handle_file_event(&manager, "p/a.wasm", true), FileAction::Reload));
    assert!(matches!(handle_file_event(&manager, "p/b.wasm", true), FileAction::Reload));
    assert!(
        matches!(handle_file_event(&manager, "p/a.wasm", false), FileAction::Unload(n) if n == "a")
    );
    assert!(matches!(handle_file_event(&manager, "p/b.wasm", false), FileAction::Ignore));
    assert!(matches!(handle_file_event(&manager, "p/..", false), FileAction::Ignore));
}

#[test]
fn only_files_of_plugins_are_reported() {
    let report = |paths: &[&str]| {
        reported_file(&paths.iter().map(|p| p.to_string()).collect::<Vec<String>>())
    };
    assert_eq!(report(&[]), None);
    assert_eq!(report(&["p/a.wasm", "p/b.json"]), Some("p/a.wasm".to_string()));
    assert_eq!(report(&["p/b.json", "p/a.wasm"]), None);
}

#[test]
fn a_round_of_changes_takes_each_file_once() {
    let mut round = Round::new(7, 1_000);
    assert_eq!(round.remaining(1_000), RELOAD_DEBOUNCE_NANOS);
    assert!(round.next(WatchEvent::Changed(9), 2_000));
    assert!(round.next(WatchEvent::Changed(7), 3_000));
    assert!(!round.next(WatchEvent::Silence, 4_000));
    assert!(!round.next(WatchEvent::Closed, 5_000));
    assert_eq!(round.finish(), vec![7, 9]);
}

#[test]
fn a_round_lasts_until_the_files_are_left_alone() {
    assert_eq!(RELOAD_DEBOUNCE_NANOS, 300_000_000);
    let mut round = Round::new(7, 0);
    assert_eq!(round.remaining(299_999_999), 1);
    assert_eq!(round.remaining(300_000_000), 0);
    assert_eq!(round.remaining(u128::MAX), 0);
    round.next(WatchEvent::Changed(7), 200_000_000);
    assert_eq!(round.remaining(300_000_000), 200_000_000);
    assert_eq!(round.remaining(500_000_000), 0);
}
