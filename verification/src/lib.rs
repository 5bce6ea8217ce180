//! Host runtime for a reduced-WebAssembly smart-contract virtual machine:
//! the boundary codec, the per-invocation runtime context and the
//! decisions the host takes around an engine, and the planning of typed
//! accessors for Solidity-style storage slots.

pub mod codec;
pub mod runtime;
pub mod solidity_storage;
