//! One invocation, step by step: the host asks the engine for one thing at
//! a time and decides on each answer what comes next.

use vstd::prelude::*;
use crate::runtime::context::{context_cloned, ContextView, RuntimeContext};
use crate::runtime::engine::{
    initial_fuel, BindingSet, CallReport, EngineConfig, EngineRun, Store,
};
use crate::runtime::error::RuntimeError;
use crate::runtime::execution::ExecutionResult;
use crate::runtime::exit_code::{ExitCode, TrapCode};
use crate::runtime::runtime::{
    call_result, uninit_runtime, with_store, with_tally, Runtime, RuntimeView,
};

verus! {

/// What the host asks of the engine.
pub enum Request<DB> {
    /// Build an engine with `config`, load the bytecode of `context` as a
    /// module, and make an empty linker and a store that holds `context`
    /// and is credited with `fuel`.
    Load { config: EngineConfig, fuel: Option<u64>, context: RuntimeContext<DB> },
    /// Give the linker the host functions of `bindings`.
    RegisterBindings { bindings: BindingSet },
    /// Instantiate the module and run its start function.
    Instantiate,
    /// Put `context` in the store, then look up the exported function
    /// `main` and call it without arguments.
    CallEntrypoint { context: RuntimeContext<DB> },
}

/// What the engine answers.
pub enum Answer<DB, T> {
    /// To `Load`.
    Loaded(Result<(), RuntimeError>),
    /// To `RegisterBindings`.
    BindingsRegistered,
    /// To `Instantiate`: on success the store as it is then.
    Instantiated(Result<Store<DB, T>, RuntimeError>),
    /// To `CallEntrypoint`.
    Called(CallReport<DB, T>),
}

/// Where an invocation stands.
pub enum Invocation<DB, T> {
    /// The module is being loaded.
    Loading { context: RuntimeContext<DB> },
    /// The module is loaded; the linker is being filled.
    Binding { context: RuntimeContext<DB>, runtime: Runtime<DB, T> },
    /// The linker is filled; the module is being instantiated.
    Instantiating { context: RuntimeContext<DB>, runtime: Runtime<DB, T> },
    /// The module is instantiated; its entry point is being called.
    Calling { runtime: Runtime<DB, T> },
    /// The invocation is over.
    Finished { outcome: Result<ExecutionResult<DB, T>, RuntimeError> },
}

/// The context `context` without its output.
pub open spec fn cleared<DB>(context: ContextView<DB>) -> ContextView<DB> {
    ContextView { output: Seq::empty(), ..context }
}

/// Whether `runtime` is what loading the module of `context` and choosing
/// its bindings gives: the runtime of `uninit_runtime` for a clone of the
/// context and an empty trace, with the bindings of the context's surface.
pub open spec fn loaded_runtime<DB: Clone, T: Default>(
    context: ContextView<DB>,
    runtime: RuntimeView<DB, T>,
) -> bool {
    &&& context.output == Seq::<u8>::empty()
    &&& context_cloned(context, runtime.context)
    &&& call_ensures(T::default, (), runtime.tracer)
    &&& runtime == (RuntimeView {
        bindings: Some(BindingSet::for_surface(context.is_shared)),
        ..uninit_runtime(runtime.context, runtime.tracer)
    })
}

/// How an invocation for `context` ends when the module cannot be loaded or
/// instantiated. Where the context asks for traps to be caught, the result
/// is the context with the failure's exit code, an empty trace and no fuel
/// tally; else the failure is handed on.
pub open spec fn load_failure<DB, T: Default>(
    context: ContextView<DB>,
    failure: RuntimeError,
    outcome: Result<ExecutionResult<DB, T>, RuntimeError>,
) -> bool {
    if context.catch_trap {
        &&& outcome matches Ok(result)
        &&& result@.context == (ContextView { exit_code: failure.spec_exit_code(), ..context })
        &&& call_ensures(T::default, (), result@.tracer)
        &&& result@.fuel_consumed is None
    } else {
        &&& outcome matches Err(err)
        &&& err == failure
    }
}

/// Whether `after` is where the invocation `before` stands once `answer`
/// came in. An answer to a question that was not asked changes nothing.
pub open spec fn resumed<DB: Clone, T: Clone + Default>(
    before: Invocation<DB, T>,
    answer: Answer<DB, T>,
    after: Invocation<DB, T>,
) -> bool {
    match (before, answer) {
        (Invocation::Loading { context }, Answer::Loaded(Ok(_))) => {
            &&& after matches Invocation::Binding { context: kept, runtime }
            &&& kept == context
            &&& loaded_runtime(context@, runtime@)
        },
        (Invocation::Loading { context }, Answer::Loaded(Err(failure))) => {
            &&& after matches Invocation::Finished { outcome }
            &&& load_failure(context@, failure, outcome)
        },
        (Invocation::Binding { context, runtime }, Answer::BindingsRegistered) => {
            after == (Invocation::<DB, T>::Instantiating { context, runtime })
        },
        (Invocation::Instantiating { context, runtime }, Answer::Instantiated(Ok(store))) => {
            &&& after matches Invocation::Calling { runtime: ready }
            &&& ready@ == (RuntimeView {
                context: cleared(store.data@),
                instantiated: true,
                ..with_store(runtime@, store)
            })
        },
        (Invocation::Instantiating { context, runtime }, Answer::Instantiated(Err(failure))) => {
            &&& after matches Invocation::Finished { outcome }
            &&& load_failure(context@, failure, outcome)
        },
        (Invocation::Calling { runtime }, Answer::Called(report)) => {
            &&& after matches Invocation::Finished { outcome }
            &&& call_result(report, outcome)
        },
        _ => after == before,
    }
}

impl<DB: Clone, T: Clone + Default> Invocation<DB, T> {
    /// What holds of an invocation at every step: the context that the
    /// invocation keeps has no output; while the module is being bound and
    /// instantiated the runtime is the one that was made for the context;
    /// and when the entry point is called the module is instantiated and
    /// the output in the store is empty.
    pub open spec fn wf(&self) -> bool {
        match *self {
            Invocation::Loading { context } => context@.output == Seq::<u8>::empty(),
            Invocation::Binding { context, runtime } => loaded_runtime(context@, runtime@),
            Invocation::Instantiating { context, runtime } => loaded_runtime(context@, runtime@),
            Invocation::Calling { runtime } => {
                &&& runtime@.instantiated
                &&& runtime@.context.output == Seq::<u8>::empty()
            },
            Invocation::Finished { .. } => true,
        }
    }

    /// The invocation for `context`, before anything was asked. Output that
    /// the context still holds is dropped.
    pub fn start(context: RuntimeContext<DB>) -> (invocation: Self)
        ensures
            invocation matches Invocation::Loading { context: fresh } && fresh@ == cleared(
                context@,
            ),
            invocation.wf(),
    {
        let mut context = context;
        context.clean_output();
        Invocation::Loading { context }
    }

    /// What the engine is to do next; nothing once the invocation is over.
    pub fn request(&self) -> (request: Option<Request<DB>>)
        requires
            self.wf(),
        ensures
            match *self {
                Invocation::Loading { context } => {
                    &&& request matches Some(Request::Load { config, fuel, context: lent })
                    &&& config == EngineConfig::for_fuel_limit(context@.fuel_limit)
                    &&& fuel == initial_fuel(context@.fuel_limit)
                    &&& context_cloned(context@, lent@)
                },
                Invocation::Binding { context, runtime } => {
                    &&& request matches Some(Request::RegisterBindings { bindings })
                    &&& bindings == BindingSet::for_surface(context@.is_shared)
                },
                Invocation::Instantiating { .. } => request matches Some(Request::Instantiate),
                Invocation::Calling { runtime } => {
                    &&& request matches Some(Request::CallEntrypoint { context: lent })
                    &&& context_cloned(runtime@.context, lent@)
                    &&& lent@.output == Seq::<u8>::empty()
                },
                Invocation::Finished { .. } => request is None,
            },
    {
        match self {
            Invocation::Loading { context } => Some(
                Request::Load {
                    config: EngineConfig::for_fuel_limit(context.fuel_limit),
                    fuel: initial_fuel(context.fuel_limit),
                    context: context.clone(),
                },
            ),
            Invocation::Binding { context, runtime } => Some(
                Request::RegisterBindings {
                    bindings: BindingSet::for_surface(runtime.data().is_shared),
                },
            ),
            Invocation::Instantiating { .. } => Some(Request::Instantiate),
            Invocation::Calling { runtime } => Some(
                Request::CallEntrypoint { context: runtime.data().clone() },
            ),
            Invocation::Finished { .. } => None,
        }
    }

    /// How an invocation for `context` ends when the module cannot be
    /// loaded or instantiated.
    fn fail(context: RuntimeContext<DB>, failure: RuntimeError) -> (outcome: Result<
        ExecutionResult<DB, T>,
        RuntimeError,
    >)
        ensures
            load_failure(context@, failure, outcome),
    {
        let mut runtime_context = context;
        if runtime_context.catch_trap {
            runtime_context.exit_code = Runtime::<DB, T>::catch_trap(&failure);
            return Ok(ExecutionResult::new(runtime_context, T::default(), None));
        }
        Err(failure)
    }

    /// Takes in the engine's answer and moves on.
    pub fn resume(self, answer: Answer<DB, T>) -> (next: Self)
        requires
            self.wf(),
        ensures
            next.wf(),
            resumed(self, answer, next),
    {
        match (self, answer) {
            (Invocation::Loading { context }, Answer::Loaded(loaded)) => {
                match Runtime::new_uninit(context.clone(), loaded) {
                    Ok(mut runtime) => {
                        runtime.register_bindings();
                        Invocation::Binding { context, runtime }
                    },
                    Err(failure) => Invocation::Finished { outcome: Self::fail(context, failure) },
                }
            },
            (Invocation::Binding { context, runtime }, Answer::BindingsRegistered) => {
                Invocation::Instantiating { context, runtime }
            },
            (Invocation::Instantiating { context, runtime }, Answer::Instantiated(started)) => {
                let mut runtime = runtime;
                match runtime.instantiate(started) {
                    Ok(_) => {
                        runtime.data_mut().clean_output();
                        Invocation::Calling { runtime }
                    },
                    Err(failure) => Invocation::Finished { outcome: Self::fail(context, failure) },
                }
            },
            (Invocation::Calling { runtime }, Answer::Called(report)) => {
                let mut runtime = runtime;
                Invocation::Finished { outcome: runtime.call(report) }
            },
            (unchanged, _) => unchanged,
        }
    }

    /// The outcome of the invocation, once it is over.
    pub fn finish(self) -> (outcome: Option<Result<ExecutionResult<DB, T>, RuntimeError>>)
        ensures
            match self {
                Invocation::Finished { outcome: reached } => outcome == Some(reached),
                _ => outcome is None,
            },
    {
        match self {
            Invocation::Finished { outcome } => Some(outcome),
            _ => None,
        }
    }
}

} // verus!

verus! {

/// How an invocation for `context` ends, for the engine's reports `run`.
///
/// Where the module cannot be loaded or instantiated, see `load_failure`,
/// for the context without its output; else the entry point is called, see
/// `call_result`.
pub open spec fn run_outcome<DB: Clone, T: Clone + Default>(
    context: ContextView<DB>,
    run: EngineRun<DB, T>,
    outcome: Result<ExecutionResult<DB, T>, RuntimeError>,
) -> bool {
    match (run.loaded, run.started) {
        (Err(failure), _) => load_failure(cleared(context), failure, outcome),
        (Ok(_), Err(failure)) => load_failure(cleared(context), failure, outcome),
        (Ok(_), Ok(_)) => call_result(run.entry, outcome),
    }
}

impl<DB: Clone, T: Clone + Default> Runtime<DB, T> {
    /// Runs one invocation for `runtime_context` against the engine's
    /// reports `run`: loads, binds, instantiates, empties the output and
    /// calls the entry point, as far as the reports let it go.
    pub fn run_with_context(runtime_context: RuntimeContext<DB>, run: EngineRun<DB, T>) -> (outcome:
        Result<ExecutionResult<DB, T>, RuntimeError>)
        ensures
            run_outcome(runtime_context@, run, outcome),
    {
        let EngineRun { loaded, started, entry } = run;
        let invocation = Invocation::start(runtime_context);
        let invocation = invocation.resume(Answer::Loaded(loaded));
        let invocation = invocation.resume(Answer::BindingsRegistered);
        let invocation = invocation.resume(Answer::Instantiated(started));
        let invocation = invocation.resume(Answer::Called(entry));
        match invocation.finish() {
            Some(outcome) => outcome,
            // never: the four answers, in their order, end an invocation
            None => Err(RuntimeError::Other),
        }
    }
}

/// Whether the module of `run` got as far as its entry point being looked
/// up.
pub open spec fn reaches_entry<DB, T>(run: EngineRun<DB, T>) -> bool {
    run.loaded is Ok && run.started is Ok
}

/// The output after a run is never carried over from the context that the
/// run was given: it is the output that the engine's store held when the
/// entry point had returned, and empty where the module did not get that
/// far.
pub proof fn lemma_output_after_run<DB: Clone, T: Clone + Default>(
    context: ContextView<DB>,
    run: EngineRun<DB, T>,
    outcome: Result<ExecutionResult<DB, T>, RuntimeError>,
)
    requires
        run_outcome(context, run, outcome),
        outcome is Ok,
    ensures
        reaches_entry(run) ==> (run.entry matches CallReport::Returned { store, .. }
            && outcome.unwrap()@.context.output == store.data@.output),
        !reaches_entry(run) ==> outcome.unwrap()@.context.output == Seq::<u8>::empty(),
{
}

/// The entry point starts on an empty output: where host bindings only
/// append to the output that they find, the output of the result is what
/// was written during the call.
pub proof fn lemma_output_is_fresh<DB: Clone, T: Clone + Default>(
    invocation: Invocation<DB, T>,
    written: Seq<u8>,
    report: CallReport<DB, T>,
    next: Invocation<DB, T>,
)
    requires
        invocation.wf(),
        invocation matches Invocation::Calling { runtime },
        report matches CallReport::Returned { store, .. } && store.data@.output
            == invocation->Calling_runtime@.context.output + written,
        resumed(invocation, Answer::Called(report), next),
        next matches Invocation::Finished { outcome: Ok(_) },
    ensures
        next matches Invocation::Finished { outcome: Ok(result) } && result@.context.output
            == written,
{
    assert(Seq::<u8>::empty() + written =~= written);
}

/// Where the guest runs out of fuel and traps are caught, the invocation
/// succeeds with the exit code for exhausted fuel; the fuel tally of the
/// result is the engine's, and it is in the context too.
pub proof fn lemma_out_of_fuel<DB: Clone, T: Clone + Default>(
    context: ContextView<DB>,
    run: EngineRun<DB, T>,
    outcome: Result<ExecutionResult<DB, T>, RuntimeError>,
)
    requires
        reaches_entry(run),
        run.entry matches CallReport::Returned { outcome: Err(RuntimeError::Trap(trap)), store }
            && trap.exit_status is None && trap.trap_code == Some(TrapCode::OutOfFuel)
            && store.data@.catch_trap,
        run_outcome(context, run, outcome),
    ensures
        outcome matches Ok(result) && result@.context.exit_code == ExitCode::OutOfFuel.into_i32()
            && result@.fuel_consumed == run.entry->Returned_store.fuel_consumed
            && result@.context == with_tally(result@.context, result@.fuel_consumed),
{
}

/// After a metered run the fuel tally is in the result and in its context,
/// and it is the engine's: where the engine consumed no more fuel than the
/// limit that the store was credited with, both are within the limit.
pub proof fn lemma_fuel_tally<DB: Clone, T: Clone + Default>(
    context: ContextView<DB>,
    run: EngineRun<DB, T>,
    outcome: Result<ExecutionResult<DB, T>, RuntimeError>,
)
    requires
        context.fuel_limit > 0,
        reaches_entry(run),
        run.entry matches CallReport::Returned { store, .. } && store.fuel_consumed matches Some(
            consumed,
        ) && initial_fuel(context.fuel_limit) matches Some(credit) && consumed <= credit,
        run_outcome(context, run, outcome),
        outcome is Ok,
    ensures
        outcome.unwrap()@.fuel_consumed matches Some(consumed) && consumed <= context.fuel_limit
            && outcome.unwrap()@.context.consumed_fuel == consumed,
{
}

/// The first failure that the engine reports of a run, if there is one.
pub open spec fn first_failure<DB, T>(run: EngineRun<DB, T>) -> Option<RuntimeError> {
    match (run.loaded, run.started, run.entry) {
        (Err(failure), _, _) => Some(failure),
        (Ok(_), Err(failure), _) => Some(failure),
        (Ok(_), Ok(_), CallReport::MissingEntrypoint) => Some(RuntimeError::MissingEntrypoint),
        (Ok(_), Ok(_), CallReport::Returned { outcome: Err(failure), .. }) => Some(failure),
        (Ok(_), Ok(_), CallReport::Returned { outcome: Ok(_), .. }) => None,
    }
}

/// Where traps are caught, an invocation fails only for want of an entry
/// point. Every other failure ends as a success, and its exit code is in
/// the context of the result, unless it is a failure of the entry point
/// with the exit code zero, which counts as a clean return.
pub proof fn lemma_caught_run_succeeds<DB: Clone, T: Clone + Default>(
    context: ContextView<DB>,
    run: EngineRun<DB, T>,
    outcome: Result<ExecutionResult<DB, T>, RuntimeError>,
)
    requires
        context.catch_trap,
        reaches_entry(run) ==> (run.entry matches CallReport::Returned { store, .. }
            && store.data@.catch_trap),
        run_outcome(context, run, outcome),
    ensures
        outcome is Ok,
        first_failure(run) matches Some(failure) ==> (outcome.unwrap()@.context.exit_code
            == failure.spec_exit_code() || (reaches_entry(run) && failure.spec_exit_code() == 0)),
{
}

/// Without an entry point an invocation fails, whether traps are caught or
/// not.
pub proof fn lemma_missing_entrypoint_is_fatal<DB: Clone, T: Clone + Default>(
    context: ContextView<DB>,
    run: EngineRun<DB, T>,
    outcome: Result<ExecutionResult<DB, T>, RuntimeError>,
)
    requires
        reaches_entry(run),
        run.entry is MissingEntrypoint,
        run_outcome(context, run, outcome),
    ensures
        outcome matches Err(err) && err == RuntimeError::MissingEntrypoint,
{
}

} // verus!

verus! {

/// On the shared surface the linker is given the shared set of host
/// functions and no other; and once the engine reports that the module
/// could not be instantiated, the invocation is over: whatever answer comes
/// after that, the entry point is not called.
pub proof fn lemma_failed_instantiation_is_final<DB: Clone, T: Clone + Default>(
    invocation: Invocation<DB, T>,
    failure: RuntimeError,
    next: Invocation<DB, T>,
    answer: Answer<DB, T>,
    after: Invocation<DB, T>,
)
    requires
        invocation.wf(),
        invocation matches Invocation::Instantiating { .. },
        resumed(invocation, Answer::Instantiated(Err(failure)), next),
        resumed(next, answer, after),
    ensures
        invocation matches Invocation::Instantiating { context, runtime } && (context@.is_shared
            ==> runtime@.bindings == Some(BindingSet::Shared)),
        next is Finished,
        after == next,
{
}

} // verus!
