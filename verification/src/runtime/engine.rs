//! What the host tells the engine and what it hears back, as plain values.

use vstd::prelude::*;
use crate::runtime::context::RuntimeContext;
use crate::runtime::error::RuntimeError;

verus! {

/// When the engine deducts fuel: before the metered operation runs, or
/// when it is convenient.
#[derive(Clone, Copy, Debug, PartialEq, Eq)]
pub enum FuelConsumptionMode {
    Lazy,
    Eager,
}

/// How the engine is set up for one invocation.
#[derive(Clone, Copy, Debug, PartialEq, Eq)]
pub struct EngineConfig {
    /// Whether guest code may use floating point.
    pub floats: bool,
    /// Whether execution is metered.
    pub consume_fuel: bool,
    pub fuel_consumption_mode: FuelConsumptionMode,
}

impl EngineConfig {
    /// The configuration for a fuel limit: never floating point; metering,
    /// with fuel deducted eagerly, exactly where the limit is not zero.
    pub open spec fn spec_for_fuel_limit(fuel_limit: u32) -> EngineConfig {
        EngineConfig {
            floats: false,
            consume_fuel: fuel_limit > 0,
            fuel_consumption_mode: if fuel_limit > 0 {
                FuelConsumptionMode::Eager
            } else {
                FuelConsumptionMode::Lazy
            },
        }
    }

    /// The configuration for a fuel limit: never floating point; metering,
    /// with fuel deducted eagerly, exactly where the limit is not zero.
    #[verifier::when_used_as_spec(spec_for_fuel_limit)]
    pub fn for_fuel_limit(fuel_limit: u32) -> (config: EngineConfig)
        ensures
            config == Self::spec_for_fuel_limit(fuel_limit),
    {
        let mut config = EngineConfig {
            floats: false,
            consume_fuel: false,
            fuel_consumption_mode: FuelConsumptionMode::Lazy,
        };
        if fuel_limit > 0 {
            config.fuel_consumption_mode = FuelConsumptionMode::Eager;
            config.consume_fuel = true;
        }
        config
    }
}

/// The fuel that a store is credited with for a fuel limit: the limit
/// itself, and none where the limit is zero.
pub open spec fn spec_initial_fuel(fuel_limit: u32) -> Option<u64> {
    if fuel_limit > 0 {
        Some(fuel_limit as u64)
    } else {
        None
    }
}

/// The fuel that a store is credited with for a fuel limit: the limit
/// itself, and none where the limit is zero.
#[verifier::when_used_as_spec(spec_initial_fuel)]
pub fn initial_fuel(fuel_limit: u32) -> (fuel: Option<u64>)
    ensures
        fuel == spec_initial_fuel(fuel_limit),
{
    if fuel_limit > 0 {
        Some(fuel_limit as u64)
    } else {
        None
    }
}

/// The two sets of host functions that a linker can be given.
#[derive(Clone, Copy, Debug, PartialEq, Eq)]
pub enum BindingSet {
    /// Everything, state writes and commits included.
    Sovereign,
    /// Reading and I/O only.
    Shared,
}

impl BindingSet {
    /// The set for a context: the shared one exactly where the context
    /// asks for the shared surface.
    pub open spec fn spec_for_surface(is_shared: bool) -> BindingSet {
        if is_shared {
            BindingSet::Shared
        } else {
            BindingSet::Sovereign
        }
    }

    /// The set for a context: the shared one exactly where the context
    /// asks for the shared surface.
    #[verifier::when_used_as_spec(spec_for_surface)]
    pub fn for_surface(is_shared: bool) -> (set: BindingSet)
        ensures
            set == Self::spec_for_surface(is_shared),
    {
        if !is_shared {
            BindingSet::Sovereign
        } else {
            BindingSet::Shared
        }
    }
}

/// What the engine's store holds of an invocation: the context, which host
/// bindings work on, the trace in the engine's own format `T`, and the fuel
/// consumed so far, which is there exactly where execution is metered.
pub struct Store<DB, T> {
    pub data: RuntimeContext<DB>,
    pub tracer: T,
    pub fuel_consumed: Option<u64>,
}

impl<DB, T> Store<DB, T> {
    pub fn new(data: RuntimeContext<DB>, tracer: T, fuel_consumed: Option<u64>) -> (store: Self)
        ensures
            store == (Store { data, tracer, fuel_consumed }),
    {
        Store { data, tracer, fuel_consumed }
    }
}

/// What the engine reports of calling the entry point.
pub enum CallReport<DB, T> {
    /// The module exports no function `main` without parameters and results.
    MissingEntrypoint,
    /// `main` was called: how the call ended, and the store as it is then.
    Returned { outcome: Result<(), RuntimeError>, store: Store<DB, T> },
}

/// The engine's reports of one invocation, phase by phase. A later one is
/// read only where the earlier ones were successes.
pub struct EngineRun<DB, T> {
    /// Of loading the bytecode as a module.
    pub loaded: Result<(), RuntimeError>,
    /// Of instantiating the module and running its start function; on
    /// success the store as it is then.
    pub started: Result<Store<DB, T>, RuntimeError>,
    /// Of calling the entry point.
    pub entry: CallReport<DB, T>,
}

} // verus!
