//! The order in which the code of a plugin is set up and run.
use vstd::prelude::*;

use crate::text::joined;

verus! {

/// How long a plugin may take over an event, in seconds.
pub const PLUGIN_CALL_TIMEOUT_SECONDS: u64 = 5;

/// The fuel that a session starts with.
pub const PLUGIN_FUEL: u64 = 50_000_000;

/// How much fuel a plugin burns before it yields to other tasks.
pub const FUEL_ASYNC_YIELD_INTERVAL: u64 = 10_000;

/// The fuel for copying the arguments of a call to the host.
pub const PLUGIN_HOSTCALL_FUEL: usize = 1_000_000;

/// Why the code of a plugin is run.
#[derive(Clone, Copy, Debug, PartialEq, Eq, Structural)]
pub enum Purpose {
    /// To see whether it can be put into service.
    Initialize,
    HandleEvent,
    /// To let it end its work before it is taken out of service.
    Shutdown,
}

/// Where a session stands: the step that is due.
#[derive(Clone, Copy, Debug, PartialEq, Eq, Structural)]
pub enum Stage {
    ReadFile,
    Compile,
    MakeWorkspace,
    ConfigureStore,
    CreateLinker,
    Instantiate,
    Call,
    Done(Ending),
}

/// How a session ended.
#[derive(Clone, Copy, Debug, PartialEq, Eq, Structural)]
pub enum Ending {
    /// A step before the call failed.
    NotStarted,
    /// The plugin was called, whatever came of it.
    Called,
}

/// How the store of a session is set up.
#[derive(Clone, Copy, Debug, PartialEq, Eq, Structural)]
pub struct StoreSettings {
    pub fuel: u64,
    pub yield_interval: u64,
    pub hostcall_fuel: usize,
}

/// Where the replacement of a plugin by a new version stands: the step that is
/// due.
#[derive(Clone, Copy, Debug, PartialEq, Eq, Structural)]
pub enum Replacement {
    /// Load the new version, up to its initialization.
    Load,
    /// Let the version in service end its work.
    ShutDownOld,
    /// Put the new version in the place of the old one, if it could be loaded.
    Install,
    Done,
}

/// The step of a replacement after `step`. `loaded` says whether the new version
/// could be loaded, `in_service` whether there is an old one.
pub open spec fn after_step(step: Replacement, loaded: bool, in_service: bool) -> Replacement {
    match step {
        Replacement::Load => if loaded && in_service {
            Replacement::ShutDownOld
        } else {
            Replacement::Install
        },
        Replacement::ShutDownOld => Replacement::Install,
        _ => Replacement::Done,
    }
}

/// How many steps of a replacement are left at most.
pub open spec fn replacement_left(step: Replacement) -> nat {
    match step {
        Replacement::Load => 3,
        Replacement::ShutDownOld => 2,
        Replacement::Install => 1,
        Replacement::Done => 0,
    }
}

/// The steps of a replacement from `step` on.
pub open spec fn replacement_from(step: Replacement, loaded: bool, in_service: bool) -> Seq<
    Replacement,
>
    decreases replacement_left(step),
{
    if step is Done {
        Seq::empty()
    } else {
        seq![step] + replacement_from(after_step(step, loaded, in_service), loaded, in_service)
    }
}

/// The first step of a session.
pub open spec fn start(purpose: Purpose) -> Stage {
    match purpose {
        Purpose::Initialize => Stage::ReadFile,
        _ => Stage::ConfigureStore,
    }
}

/// The step after `stage`, given whether `stage` succeeded.
pub open spec fn next(purpose: Purpose, stage: Stage, succeeded: bool) -> Stage {
    match stage {
        Stage::Done(ending) => Stage::Done(ending),
        Stage::Call => Stage::Done(Ending::Called),
        // A plugin is told to shut down even where its limits could not be set.
        Stage::ConfigureStore => if succeeded || purpose == Purpose::Shutdown {
            Stage::CreateLinker
        } else {
            Stage::Done(Ending::NotStarted)
        },
        _ => if !succeeded {
            Stage::Done(Ending::NotStarted)
        } else {
            match stage {
                Stage::ReadFile => Stage::Compile,
                Stage::Compile => Stage::MakeWorkspace,
                Stage::MakeWorkspace => Stage::ConfigureStore,
                Stage::CreateLinker => Stage::Instantiate,
                _ => Stage::Call,
            }
        },
    }
}

/// How many steps are left at most.
pub open spec fn steps_left(stage: Stage) -> nat {
    match stage {
        Stage::ReadFile => 7,
        Stage::Compile => 6,
        Stage::MakeWorkspace => 5,
        Stage::ConfigureStore => 4,
        Stage::CreateLinker => 3,
        Stage::Instantiate => 2,
        Stage::Call => 1,
        Stage::Done(_) => 0,
    }
}

/// Where a session stands after steps that went as `results` says.
pub open spec fn run(purpose: Purpose, results: Seq<bool>) -> Stage
    decreases results.len(),
{
    if results.len() == 0 {
        start(purpose)
    } else {
        next(purpose, run(purpose, results.drop_last()), results.last())
    }
}

/// The first step of a session.
pub fn first_stage(purpose: Purpose) -> (r: Stage)
    ensures
        r == start(purpose),
{
    match purpose {
        Purpose::Initialize => Stage::ReadFile,
        _ => Stage::ConfigureStore,
    }
}

/// The step after `stage`, given whether `stage` succeeded.
pub fn next_stage(purpose: Purpose, stage: Stage, succeeded: bool) -> (r: Stage)
    ensures
        r == next(purpose, stage, succeeded),
{
    match stage {
        Stage::Done(ending) => Stage::Done(ending),
        Stage::Call => Stage::Done(Ending::Called),
        Stage::ConfigureStore => if succeeded || purpose == Purpose::Shutdown {
            Stage::CreateLinker
        } else {
            Stage::Done(Ending::NotStarted)
        },
        Stage::ReadFile => if succeeded {
            Stage::Compile
        } else {
            Stage::Done(Ending::NotStarted)
        },
        Stage::Compile => if succeeded {
            Stage::MakeWorkspace
        } else {
            Stage::Done(Ending::NotStarted)
        },
        Stage::MakeWorkspace => if succeeded {
            Stage::ConfigureStore
        } else {
            Stage::Done(Ending::NotStarted)
        },
        Stage::CreateLinker => if succeeded {
            Stage::Instantiate
        } else {
            Stage::Done(Ending::NotStarted)
        },
        Stage::Instantiate => if succeeded {
            Stage::Call
        } else {
            Stage::Done(Ending::NotStarted)
        },
    }
}

/// The step of a replacement after `step`. `loaded` says whether the new version
/// could be loaded, `in_service` whether there is an old one.
pub fn next_replacement(step: Replacement, loaded: bool, in_service: bool) -> (r: Replacement)
    ensures
        r == after_step(step, loaded, in_service),
{
    match step {
        Replacement::Load => if loaded && in_service {
            Replacement::ShutDownOld
        } else {
            Replacement::Install
        },
        Replacement::ShutDownOld => Replacement::Install,
        Replacement::Install => Replacement::Done,
        Replacement::Done => Replacement::Done,
    }
}

/// How the store of a session is set up.
pub fn configure_store() -> (r: StoreSettings)
    ensures
        r == (StoreSettings {
            fuel: PLUGIN_FUEL,
            yield_interval: FUEL_ASYNC_YIELD_INTERVAL,
            hostcall_fuel: PLUGIN_HOSTCALL_FUEL,
        }),
{
    StoreSettings {
        fuel: PLUGIN_FUEL,
        yield_interval: FUEL_ASYNC_YIELD_INTERVAL,
        hostcall_fuel: PLUGIN_HOSTCALL_FUEL,
    }
}

/// Whether a plugin can be put into service, from what its initialization came
/// to: what the plugin answered, or what stopped it.
pub fn initialization(result: Result<Result<(), String>, String>) -> (r: Result<(), String>)
    ensures
        match result {
            Ok(Ok(())) => r is Ok,
            Ok(Err(refusal)) => r matches Err(e) && e@ == "plugin initialization failed: "@
                + refusal@,
            Err(trap) => r matches Err(e) && e@ == "plugin initialization trapped: "@ + trap@,
        },
{
    match result {
        Ok(Ok(())) => Ok(()),
        Ok(Err(refusal)) => Err(joined("plugin initialization failed: ", refusal.as_str())),
        Err(trap) => Err(joined("plugin initialization trapped: ", trap.as_str())),
    }
}

/// The version in service is shut down once, after the new one was loaded and
/// before it takes its place; and not at all where the new one could not be
/// loaded or there is no version in service. No other version is shut down.
pub proof fn law_old_version_is_shut_down_once(loaded: bool, in_service: bool)
    ensures
        replacement_from(Replacement::Load, loaded, in_service) == if loaded && in_service {
            seq![Replacement::Load, Replacement::ShutDownOld, Replacement::Install]
        } else {
            seq![Replacement::Load, Replacement::Install]
        },
{
    reveal_with_fuel(replacement_from, 4);
    let steps = replacement_from(Replacement::Load, loaded, in_service);
    if loaded && in_service {
        assert(steps =~= seq![
            Replacement::Load,
            Replacement::ShutDownOld,
            Replacement::Install,
        ]);
    } else {
        assert(steps =~= seq![Replacement::Load, Replacement::Install]);
    }
}

/// Every step brings a session closer to its end.
pub proof fn law_steps_make_progress(purpose: Purpose, stage: Stage, succeeded: bool)
    requires
        !(stage is Done),
    ensures
        steps_left(next(purpose, stage, succeeded)) < steps_left(stage),
{
}

/// A session is over after at most seven steps.
pub proof fn law_session_ends(purpose: Purpose, results: Seq<bool>)
    ensures
        steps_left(run(purpose, results)) <= 7,
        results.len() >= 7 ==> run(purpose, results) is Done,
{
    lemma_steps_bound(purpose, results);
}

proof fn lemma_steps_bound(purpose: Purpose, results: Seq<bool>)
    ensures
        results.len() <= 7 ==> steps_left(run(purpose, results)) <= 7 - results.len(),
        results.len() >= 7 ==> run(purpose, results) is Done,
    decreases results.len(),
{
    if results.len() > 0 {
        lemma_steps_bound(purpose, results.drop_last());
    }
}

/// A plugin that is put into service is called only after every step before the
/// call succeeded.
pub proof fn law_initialize_needs_every_step(results: Seq<bool>)
    requires
        run(Purpose::Initialize, results) == Stage::Call,
    ensures
        results == seq![true, true, true, true, true, true],
{
    lemma_initialize(results);
    assert(results =~= seq![true, true, true, true, true, true]);
}

proof fn lemma_initialize(results: Seq<bool>)
    ensures
        ({
            let stage = run(Purpose::Initialize, results);
            !(stage is Done) ==> {
                &&& results.len() == 7 - steps_left(stage)
                &&& forall|i: int| 0 <= i < results.len() ==> #[trigger] results[i]
            }
        }),
    decreases results.len(),
{
    if results.len() > 0 {
        lemma_initialize(results.drop_last());
        assert forall|i: int|
            0 <= i < results.len() && !(run(Purpose::Initialize, results) is Done) implies #[trigger] results[i] by {
            if i < results.len() - 1 {
                assert(results.drop_last()[i]);
            }
        }
    }
}

/// A plugin sees an event only in a store whose limits are set: it is called only
/// after the store, the linker and the instance were all made.
pub proof fn law_event_needs_every_step(results: Seq<bool>)
    requires
        run(Purpose::HandleEvent, results) == Stage::Call,
    ensures
        results == seq![true, true, true],
{
    lemma_event(results);
    assert(results =~= seq![true, true, true]);
}

proof fn lemma_event(results: Seq<bool>)
    ensures
        ({
            let stage = run(Purpose::HandleEvent, results);
            !(stage is Done) ==> {
                &&& steps_left(stage) <= 4
                &&& results.len() == 4 - steps_left(stage)
                &&& forall|i: int| 0 <= i < results.len() ==> #[trigger] results[i]
            }
        }),
    decreases results.len(),
{
    if results.len() > 0 {
        lemma_event(results.drop_last());
        assert forall|i: int|
            0 <= i < results.len() && !(run(Purpose::HandleEvent, results) is Done) implies #[trigger] results[i] by {
            if i < results.len() - 1 {
                assert(results.drop_last()[i]);
            }
        }
    }
}

} // verus!
