//! What an invocation returns.

use vstd::prelude::*;
use crate::runtime::context::{
    context_cloned, default_context, ContextView, RuntimeContext,
};
use crate::runtime::engine::Store;

verus! {

/// The context after the run, the trace and the fuel that was consumed.
pub struct ExecutionResult<DB, T> {
    runtime_context: RuntimeContext<DB>,
    tracer: T,
    fuel_consumed: Option<u64>,
}

/// The values that an execution result holds.
#[verifier::ext_equal]
pub struct ResultView<DB, T> {
    pub context: ContextView<DB>,
    pub tracer: T,
    pub fuel_consumed: Option<u64>,
}

impl<DB, T> View for ExecutionResult<DB, T> {
    type V = ResultView<DB, T>;

    closed spec fn view(&self) -> ResultView<DB, T> {
        ResultView {
            context: self.runtime_context@,
            tracer: self.tracer,
            fuel_consumed: self.fuel_consumed,
        }
    }
}

/// Whether `result` may be what cloning the parts of a store gave, the
/// store holding the context `context`, the trace `tracer` and the tally
/// `fuel_consumed`.
pub open spec fn snapshot_of<DB: Clone, T: Clone>(
    context: ContextView<DB>,
    tracer: T,
    fuel_consumed: Option<u64>,
    result: ResultView<DB, T>,
) -> bool {
    &&& context_cloned(context, result.context)
    &&& cloned::<T>(tracer, result.tracer)
    &&& result.fuel_consumed == fuel_consumed
}

impl<DB, T> ExecutionResult<DB, T> {
    /// The result made of its three parts.
    pub(crate) fn new(runtime_context: RuntimeContext<DB>, tracer: T, fuel_consumed: Option<u64>) -> (result:
        Self)
        ensures
            result@ == (ResultView { context: runtime_context@, tracer, fuel_consumed }),
    {
        ExecutionResult { runtime_context, tracer, fuel_consumed }
    }

    /// The bytecode that ran.
    pub fn bytecode(&self) -> (bytecode: &[u8])
        ensures
            bytecode@ == self@.context.bytecode,
    {
        self.runtime_context.bytecode.as_slice()
    }

    /// The context after the run.
    pub fn data(&self) -> (context: &RuntimeContext<DB>)
        ensures
            context@ == self@.context,
    {
        &self.runtime_context
    }

    /// The trace of the run, as the engine recorded it.
    pub fn tracer(&self) -> (tracer: &T)
        ensures
            *tracer == self@.tracer,
    {
        &self.tracer
    }

    /// The fuel that the run consumed; none where it was not metered.
    pub fn fuel_consumed(&self) -> (fuel: Option<u64>)
        ensures
            fuel == self@.fuel_consumed,
    {
        self.fuel_consumed
    }
}

impl<DB: Clone, T: Clone> ExecutionResult<DB, T> {
    /// A result from clones of what `store` holds. The store stays as it is.
    pub fn cloned(store: &Store<DB, T>) -> (result: Self)
        ensures
            snapshot_of(store.data@, store.tracer, store.fuel_consumed, result@),
    {
        ExecutionResult {
            runtime_context: store.data.clone(),
            tracer: store.tracer.clone(),
            fuel_consumed: store.fuel_consumed,
        }
    }
}

impl<DB, T: Default> ExecutionResult<DB, T> {
    /// A result from what `store` holds, moved out of it: the store is left
    /// with a default context and a default trace.
    pub fn taken(store: &mut Store<DB, T>) -> (result: Self)
        ensures
            result@ == (ResultView {
                context: old(store).data@,
                tracer: old(store).tracer,
                fuel_consumed: old(store).fuel_consumed,
            }),
            final(store).data@ == default_context::<DB>(),
            call_ensures(T::default, (), final(store).tracer),
            final(store).fuel_consumed == old(store).fuel_consumed,
    {
        let fuel_consumed = store.fuel_consumed;
        let mut runtime_context: RuntimeContext<DB> = RuntimeContext::default();
        let mut tracer: T = T::default();
        core::mem::swap(&mut runtime_context, &mut store.data);
        core::mem::swap(&mut tracer, &mut store.tracer);
        ExecutionResult { runtime_context, tracer, fuel_consumed }
    }
}

} // verus!
