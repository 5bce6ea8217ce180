//! The host's side of a loaded module.

use vstd::prelude::*;
use crate::runtime::context::{ContextView, RuntimeContext};
use crate::runtime::engine::{initial_fuel, BindingSet, CallReport, EngineConfig, Store};
use crate::runtime::error::RuntimeError;
use crate::runtime::execution::{snapshot_of, ExecutionResult};
use crate::runtime::exit_code::ExitCode;

verus! {

/// What the host knows of a module in the engine: how the engine was set
/// up, what the store holds, which bindings the linker has, and whether the
/// module is instantiated.
pub struct Runtime<DB, T> {
    config: EngineConfig,
    fuel: Option<u64>,
    store: Store<DB, T>,
    bindings: Option<BindingSet>,
    instantiated: bool,
}

/// The values that a runtime holds.
#[verifier::ext_equal]
pub struct RuntimeView<DB, T> {
    /// How the engine was set up.
    pub config: EngineConfig,
    /// The fuel that the store was credited with.
    pub fuel: Option<u64>,
    /// The context in the store.
    pub context: ContextView<DB>,
    /// The trace in the store.
    pub tracer: T,
    /// The fuel consumed so far; none where execution is not metered.
    pub fuel_consumed: Option<u64>,
    /// The set of host functions that the linker has, if any.
    pub bindings: Option<BindingSet>,
    /// Whether the module is instantiated.
    pub instantiated: bool,
}

impl<DB, T> View for Runtime<DB, T> {
    type V = RuntimeView<DB, T>;

    closed spec fn view(&self) -> RuntimeView<DB, T> {
        RuntimeView {
            config: self.config,
            fuel: self.fuel,
            context: self.store.data@,
            tracer: self.store.tracer,
            fuel_consumed: self.store.fuel_consumed,
            bindings: self.bindings,
            instantiated: self.instantiated,
        }
    }
}

/// The runtime for a context whose module was just loaded: the engine set
/// up for the fuel limit, the store credited with the limit and holding the
/// context and the empty trace `tracer`, no bindings, no instance.
pub open spec fn uninit_runtime<DB, T>(context: ContextView<DB>, tracer: T) -> RuntimeView<DB, T> {
    RuntimeView {
        config: EngineConfig::for_fuel_limit(context.fuel_limit),
        fuel: initial_fuel(context.fuel_limit),
        context,
        tracer,
        fuel_consumed: if context.fuel_limit > 0 {
            Some(0u64)
        } else {
            None
        },
        bindings: None,
        instantiated: false,
    }
}

/// The runtime `before` with what `store` holds in place of its store.
pub open spec fn with_store<DB, T>(before: RuntimeView<DB, T>, store: Store<DB, T>) -> RuntimeView<
    DB,
    T,
> {
    RuntimeView {
        context: store.data@,
        tracer: store.tracer,
        fuel_consumed: store.fuel_consumed,
        ..before
    }
}

/// Whether `call` hands the failure on: it does where the failure's exit
/// code is not zero and the context in the store does not ask for traps to
/// be caught.
pub open spec fn is_handed_on<DB>(failure: RuntimeError, context: ContextView<DB>) -> bool {
    failure.spec_exit_code() != 0 && !context.catch_trap
}

/// The context `context` with the fuel tally of a run in it: where the run
/// was metered, `consumed_fuel` is the tally, cut to 32 bits; else the
/// context is as it was.
pub open spec fn with_tally<DB>(context: ContextView<DB>, fuel_consumed: Option<u64>) -> ContextView<
    DB,
> {
    match fuel_consumed {
        Some(consumed) => ContextView { consumed_fuel: consumed as u32, ..context },
        None => context,
    }
}

/// The context that `call` leaves in the store, for the outcome of the
/// entry point, the fuel tally `fuel_consumed` of the store and the context
/// `context` that the engine left there. The tally of a metered run goes
/// into `consumed_fuel`. A failure that is caught puts its exit code into
/// the context; a clean return, and a failure whose exit code is zero,
/// leave the exit code as it is.
pub open spec fn context_after_call<DB>(
    outcome: Result<(), RuntimeError>,
    fuel_consumed: Option<u64>,
    context: ContextView<DB>,
) -> ContextView<DB> {
    match outcome {
        Ok(_) => with_tally(context, fuel_consumed),
        Err(failure) => if failure.spec_exit_code() != 0 && context.catch_trap {
            ContextView {
                exit_code: failure.spec_exit_code(),
                ..with_tally(context, fuel_consumed)
            }
        } else {
            with_tally(context, fuel_consumed)
        },
    }
}

/// What `call` leaves in a runtime `before`, for the engine's report of
/// the call: the store as the engine left it, with the context that
/// `context_after_call` says.
pub open spec fn after_call<DB, T>(before: RuntimeView<DB, T>, report: CallReport<DB, T>) -> RuntimeView<
    DB,
    T,
> {
    match report {
        CallReport::MissingEntrypoint => before,
        CallReport::Returned { outcome, store } => RuntimeView {
            context: context_after_call(outcome, store.fuel_consumed, store.data@),
            ..with_store(before, store)
        },
    }
}

/// How `call` ends, for the engine's report of the call.
///
/// Without an entry point the call fails, and nothing is caught. A failure
/// of the entry point is handed on where `is_handed_on` says so. In every
/// other case the result is a snapshot of the store, with the context that
/// `context_after_call` says.
pub open spec fn call_result<DB: Clone, T: Clone>(
    report: CallReport<DB, T>,
    outcome: Result<ExecutionResult<DB, T>, RuntimeError>,
) -> bool {
    match report {
        CallReport::MissingEntrypoint => {
            &&& outcome matches Err(err)
            &&& err == RuntimeError::MissingEntrypoint
        },
        CallReport::Returned { outcome: Err(failure), store } if is_handed_on(
            failure,
            store.data@,
        ) => {
            &&& outcome matches Err(err)
            &&& err == failure
        },
        CallReport::Returned { outcome: ended, store } => {
            &&& outcome matches Ok(result)
            &&& snapshot_of(
                context_after_call(ended, store.fuel_consumed, store.data@),
                store.tracer,
                store.fuel_consumed,
                result@,
            )
        },
    }
}

impl<DB, T> Runtime<DB, T> {
    /// The exit code that a failure is reported as: the exit status that
    /// the guest halted with, else the code that the engine's trap code
    /// maps to, and the unknown error for anything else.
    pub fn catch_trap(err: &RuntimeError) -> (code: i32)
        ensures
            code == err.spec_exit_code(),
    {
        let err = match err {
            RuntimeError::Trap(err) => err,
            _ => return ExitCode::UnknownError.into_i32(),
        };
        // the status that the guest halted with goes first, as it is
        if let Some(exit_status) = err.exit_status {
            return exit_status;
        }
        // then the engine's reason, mapped to its exit code
        if let Some(trap_code) = err.trap_code {
            return ExitCode::from_trap_code(trap_code).into_i32();
        }
        ExitCode::UnknownError.into_i32()
    }

    /// Registers the host functions of the surface that the context asks
    /// for: the sovereign set, or the shared set where `is_shared` is set.
    pub fn register_bindings(&mut self)
        ensures
            final(self)@ == (RuntimeView {
                bindings: Some(BindingSet::for_surface(old(self)@.context.is_shared)),
                ..old(self)@
            }),
    {
        self.bindings = Some(BindingSet::for_surface(self.store.data.is_shared));
    }

    /// Takes in the engine's report of instantiating the module and running
    /// its start function. On success the runtime holds the store as the
    /// engine left it; a failure is handed on and changes nothing.
    pub fn instantiate(&mut self, started: Result<Store<DB, T>, RuntimeError>) -> (outcome: Result<
        (),
        RuntimeError,
    >)
        ensures
            match started {
                Ok(store) => outcome is Ok && final(self)@ == (RuntimeView {
                    instantiated: true,
                    ..with_store(old(self)@, store)
                }),
                Err(err) => outcome == Err::<(), RuntimeError>(err) && final(self)@ == old(self)@,
            },
    {
        match started {
            Ok(store) => {
                self.store = store;
                self.instantiated = true;
                Ok(())
            },
            Err(err) => Err(err),
        }
    }

    /// How the engine is set up.
    pub fn config(&self) -> (config: EngineConfig)
        ensures
            config == self@.config,
    {
        self.config
    }

    /// The fuel that the store is credited with.
    pub fn fuel(&self) -> (fuel: Option<u64>)
        ensures
            fuel == self@.fuel,
    {
        self.fuel
    }

    /// The set of host functions that was registered, if any.
    pub fn bindings(&self) -> (bindings: Option<BindingSet>)
        ensures
            bindings == self@.bindings,
    {
        self.bindings
    }

    /// The context in the store.
    pub fn data(&self) -> (context: &RuntimeContext<DB>)
        ensures
            context@ == self@.context,
    {
        &self.store.data
    }

    /// The context in the store, to be changed in place.
    pub fn data_mut(&mut self) -> (context: &mut RuntimeContext<DB>)
        ensures
            context@ == old(self)@.context,
            final(self)@ == (RuntimeView { context: final(context)@, ..old(self)@ }),
    {
        &mut self.store.data
    }
}

impl<DB, T: Default> Runtime<DB, T> {
    /// The runtime for a context, given the engine's report of loading the
    /// context's bytecode under `EngineConfig::for_fuel_limit`. A failure to
    /// load is handed on.
    pub fn new_uninit(runtime_context: RuntimeContext<DB>, loaded: Result<(), RuntimeError>) -> (outcome:
        Result<Self, RuntimeError>)
        ensures
            match loaded {
                Ok(_) => outcome matches Ok(runtime) && runtime@ == uninit_runtime(
                    runtime_context@,
                    runtime@.tracer,
                ) && call_ensures(T::default, (), runtime@.tracer),
                Err(err) => outcome matches Err(e) && e == err,
            },
    {
        let fuel_limit = runtime_context.fuel_limit;
        let config = EngineConfig::for_fuel_limit(fuel_limit);
        match loaded {
            Ok(_) => {},
            Err(err) => {
                return Err(err);
            },
        }
        let fuel = initial_fuel(fuel_limit);
        let fuel_consumed: Option<u64> = if config.consume_fuel {
            Some(0)
        } else {
            None
        };
        let store = Store::new(runtime_context, T::default(), fuel_consumed);
        let result = Runtime { config, fuel, store, bindings: None, instantiated: false };
        Ok(result)
    }

    /// The runtime for a context, with its bindings registered and its
    /// module instantiated, given the engine's reports of loading and of
    /// instantiating. The first failure is handed on.
    pub fn new(
        runtime_context: RuntimeContext<DB>,
        loaded: Result<(), RuntimeError>,
        started: Result<Store<DB, T>, RuntimeError>,
    ) -> (outcome: Result<Self, RuntimeError>)
        ensures
            match (loaded, started) {
                (Err(err), _) => outcome matches Err(e) && e == err,
                (Ok(_), Err(err)) => outcome matches Err(e) && e == err,
                (Ok(_), Ok(store)) => outcome matches Ok(runtime) && runtime@ == (RuntimeView {
                    bindings: Some(BindingSet::for_surface(runtime_context@.is_shared)),
                    instantiated: true,
                    ..with_store(uninit_runtime(runtime_context@, store.tracer), store)
                }),
            },
    {
        let mut result = Self::new_uninit(runtime_context, loaded)?;
        result.register_bindings();
        result.instantiate(started)?;
        Ok(result)
    }
}

impl<DB: Clone, T: Clone> Runtime<DB, T> {
    /// Takes in the engine's report of calling the entry point `main`. The
    /// fuel tally of a metered run is written into the context, and the
    /// exit code of a failure that is caught; the result is a snapshot of
    /// the store after that.
    pub fn call(&mut self, report: CallReport<DB, T>) -> (outcome: Result<
        ExecutionResult<DB, T>,
        RuntimeError,
    >)
        requires
            old(self)@.instantiated,
        ensures
            final(self)@ == after_call(old(self)@, report),
            call_result(report, outcome),
    {
        let res = match report {
            CallReport::MissingEntrypoint => {
                return Err(RuntimeError::MissingEntrypoint);
            },
            CallReport::Returned { outcome, store } => {
                self.store = store;
                outcome
            },
        };
        if let Some(fuel_consumed) = self.store.fuel_consumed {
            self.store.data.consumed_fuel = #[verifier::truncate] (fuel_consumed as u32);
        }
        match res {
            Ok(_) => {},
            Err(err) => {
                let exit_code = Self::catch_trap(&err);
                if exit_code != 0 {
                    if !self.store.data.catch_trap {
                        return Err(err);
                    }
                    self.store.data.exit_code = exit_code;
                }
            },
        }
        let execution_result = ExecutionResult::cloned(&self.store);
        Ok(execution_result)
    }
}

} // verus!
