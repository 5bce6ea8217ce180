//! The execution runtime: what the host decides around one run of a guest
//! module in the engine.

pub mod context;
pub mod engine;
pub mod error;
pub mod execution;
pub mod exit_code;
pub mod invocation;
pub mod runtime;

pub use self::context::RuntimeContext;
pub use self::error::RuntimeError;
pub use self::execution::ExecutionResult;
pub use self::runtime::Runtime;
