//! The engine that runs plugins, and the code of a plugin.
use std::sync::Arc;
use vstd::prelude::*;
use wasmtime::component::Component;
use wasmtime::Engine;

verus! {

#[verifier::external_type_specification]
#[verifier::external_body]
pub struct ExEngine(Engine);

#[verifier::external_type_specification]
#[verifier::external_body]
pub struct ExComponent(Component);

#[verifier::external_type_specification]
#[verifier::external_body]
pub struct ExWasmtimeError(wasmtime::Error);

/// An engine that several owners hold.
pub type SharedEngine = Arc<Engine>;

/// What an engine is set up for.
#[derive(Clone, Copy, Debug, PartialEq, Eq, Structural)]
pub struct EngineFeatures {
    /// Whether it runs components.
    pub component_model: bool,
    /// Whether a module may have more than one memory.
    pub multi_memory: bool,
    /// Whether it counts the fuel that code burns. A store takes fuel only from
    /// such an engine.
    pub fuel: bool,
}

/// What an engine is set up for.
pub uninterp spec fn engine_features(engine: Engine) -> EngineFeatures;

/// Calls `Engine::new` with a configuration that sets the three features. The
/// engine that it makes has them as they were set. Whether it makes one depends
/// on the machine.
#[verifier::external_body]
fn new_engine(features: EngineFeatures) -> (r: Result<Engine, wasmtime::Error>)
    ensures
        match r {
            Ok(e) => engine_features(e) == features,
            Err(_) => true,
        },
{
    let mut config = wasmtime::Config::new();
    config.wasm_component_model(features.component_model);
    config.wasm_multi_memory(features.multi_memory);
    config.consume_fuel(features.fuel);
    Engine::new(&config)
}

/// Calls `Engine::clone`: another handle to the same engine.
#[verifier::external_body]
pub(crate) fn share_engine(engine: &Engine) -> (r: Engine)
    ensures
        r == *engine,
{
    engine.clone()
}

/// The bytes that a component was compiled from.
pub uninterp spec fn compiled_from(component: Component) -> Seq<u8>;

/// The engine that a component was compiled by.
pub uninterp spec fn compiled_by(component: Component) -> Engine;

/// Whether `text` may say why an engine does not compile `bytes`.
pub uninterp spec fn may_reject(engine: Engine, bytes: Seq<u8>, text: Seq<char>) -> bool;

/// Calls `Component::new` on the bytes of a component: what it makes was compiled
/// from those bytes by that engine, and the text of its error says why they were
/// not compiled. Which bytes are accepted, and how an error is worded, is for the
/// compiler on the machine to say.
#[verifier::external_body]
pub(crate) fn compile(engine: &Engine, bytes: &Vec<u8>) -> (r: Result<Component, String>)
    ensures
        match r {
            Ok(c) => compiled_from(c) == bytes@ && compiled_by(c) == *engine,
            Err(e) => may_reject(*engine, bytes@, e@),
        },
{
    Component::new(engine, bytes).map_err(|e| e.to_string())
}

/// Calls `Component::clone`: another reference to the same component.
#[verifier::external_body]
pub(crate) fn share_component(component: &Component) -> (r: Component)
    ensures
        r == *component,
{
    component.clone()
}

/// The engine for plugins.
pub fn create_engine() -> (r: Result<Engine, wasmtime::Error>)
    ensures
        r matches Ok(e) ==> engine_features(e) == (EngineFeatures {
            component_model: true,
            multi_memory: true,
            fuel: true,
        }),
{
    new_engine(EngineFeatures { component_model: true, multi_memory: true, fuel: true })
}

} // verus!
