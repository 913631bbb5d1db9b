use ynsrvcs::wasm::limits::{
    default_max_instances, default_max_memories, default_max_memory_bytes, default_max_tables,
    load_plugin_config, ConfigFile, PluginConfig, PluginLimits, PluginPermissions,
    PluginResourceLimiter,
};
use ynsrvcs::wasm::plugin::create_engine;
use ynsrvcs::wasm::session::{
    configure_store, first_stage, initialization, next_stage, Ending, Purpose, Stage,
    FUEL_ASYNC_YIELD_INTERVAL, PLUGIN_CALL_TIMEOUT_SECONDS, PLUGIN_FUEL, PLUGIN_HOSTCALL_FUEL,
};

#[test]
fn plugins_are_granted_nothing_by_default() {
    let config = PluginConfig::default();
    assert_eq!(
        config.permissions,
        PluginPermissions { http: false, fs_read: false, fs_write: false, env: false, kv: false }
    );
    assert_eq!(
        config.limits,
        PluginLimits {
            max_memory_bytes: 64 * 1024 * 1024,
            max_instances: 10,
            max_tables: 10,
            max_memories: 1,
        }
    );
    assert_eq!(default_max_memory_bytes(), 67_108_864);
    assert_eq!(default_max_instances(), 10);
    assert_eq!(default_max_tables(), 10);
    assert_eq!(default_max_memories(), 1);
}

#[test]
fn settings_that_are_of_no_use_are_replaced() {
    assert_eq!(load_plugin_config(ConfigFile::Missing), PluginConfig::default());
    assert_eq!(load_plugin_config(ConfigFile::Unreadable), PluginConfig::default());
    assert_eq!(load_plugin_config(ConfigFile::Invalid), PluginConfig::default());
    let mut config = PluginConfig::default();
    config.permissions.kv = true;
    assert_eq!(load_plugin_config(ConfigFile::Read(config)), config);
}

#[test]
fn memory_is_limited_and_tables_are_not() {
    let mut limits = PluginLimits::default();
    limits.max_memory_bytes = 100;
    limits.max_memories = 2;
    let limiter = PluginResourceLimiter::new(limits);
    assert!(limiter.memory_growing(0, 100, None));
    assert!(!limiter.memory_growing(0, 101, None));
    assert!(limiter.table_growing(0, usize::MAX, None));
    assert_eq!(limiter.instances(), 10);
    assert_eq!(limiter.memories(), 2);
    assert_eq!(limiter.tables(), 10);
}

#[test]
fn the_limits_of_a_session_are_fixed() {
    let settings = configure_store();
    assert_eq!(settings.fuel, 50_000_000);
    assert_eq!(settings.yield_interval, 10_000);
    assert_eq!(settings.hostcall_fuel, 1_000_000);
    assert_eq!(PLUGIN_CALL_TIMEOUT_SECONDS, 5);
}

#[test]
fn a_store_of_the_engine_takes_the_settings() {
    let engine = create_engine().unwrap();
    let mut store = wasmtime::Store::new(&engine, ());
    assert!(store.set_fuel(PLUGIN_FUEL).is_ok());
    assert!(store.fuel_async_yield_interval(Some(FUEL_ASYNC_YIELD_INTERVAL)).is_ok());
    store.set_hostcall_fuel(PLUGIN_HOSTCALL_FUEL);
    assert_eq!(store.get_fuel().unwrap(), 50_000_000);
}

#[test]
fn the_engine_runs_components() {
    let engine = create_engine().unwrap();
    let empty = [0x00, 0x61, 0x73, 0x6d, 0x0d, 0x00, 0x01, 0x00];
    assert!(wasmtime::component::Component::new(&engine, &empty).is_ok());
}

fn run(purpose: Purpose, results: &[bool]) -> Stage {
    let mut stage = first_stage(purpose);
    for result in results {
        stage = next_stage(purpose, stage, *result);
    }
    stage
}

#[test]
fn initialization_takes_every_step() {
    assert_eq!(run(Purpose::Initialize, &[]), Stage::ReadFile);
    assert_eq!(run(Purpose::Initialize, &[true]), Stage::Compile);
    assert_eq!(run(Purpose::Initialize, &[true; 2]), Stage::MakeWorkspace);
    assert_eq!(run(Purpose::Initialize, &[true; 3]), Stage::ConfigureStore);
    assert_eq!(run(Purpose::Initialize, &[true; 4]), Stage::CreateLinker);
    assert_eq!(run(Purpose::Initialize, &[true; 5]), Stage::Instantiate);
    assert_eq!(run(Purpose::Initialize, &[true; 6]), Stage::Call);
    assert_eq!(run(Purpose::Initialize, &[true; 7]), Stage::Done(Ending::Called));
    assert_eq!(run(Purpose::Initialize, &[true; 9]), Stage::Done(Ending::Called));
}

#[test]
fn a_step_that_fails_ends_the_session() {
    for failing in 0..6 {
        let mut results = vec![true; failing];
        results.push(false);
        assert_eq!(run(Purpose::Initialize, &results), Stage::Done(Ending::NotStarted));
    }
}

#[test]
fn an_event_needs_a_limited_store() {
    assert_eq!(run(Purpose::HandleEvent, &[false]), Stage::Done(Ending::NotStarted));
    assert_eq!(run(Purpose::HandleEvent, &[true, true, true]), Stage::Call);
    assert_eq!(run(Purpose::HandleEvent, &[true, true, true, false]), Stage::Done(Ending::Called));
}

#[test]
fn a_shutdown_goes_on_without_limits() {
    assert_eq!(run(Purpose::Shutdown, &[false]), Stage::CreateLinker);
    assert_eq!(run(Purpose::Shutdown, &[false, true, true]), Stage::Call);
    assert_eq!(run(Purpose::Shutdown, &[true, false]), Stage::Done(Ending::NotStarted));
    assert_eq!(run(Purpose::Shutdown, &[true, true, false]), Stage::Done(Ending::NotStarted));
}

#[test]
fn initialization_reports_what_went_wrong() {
    assert_eq!(initialization(Ok(Ok(()))), Ok(()));
    assert_eq!(
        initialization(Ok(Err("no".to_string()))),
        Err("plugin initialization failed: no".to_string())
    );
    assert_eq!(
        initialization(Err("out of fuel".to_string())),
        Err("plugin initialization trapped: out of fuel".to_string())
    );
}
