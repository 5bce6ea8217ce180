//! Failures of an invocation.

use vstd::prelude::*;
use crate::runtime::exit_code::{ExitCode, TrapCode};

verus! {

/// An abnormal end of guest code, with what it carries: the exit status
/// that the guest asked to halt with, or the reason the engine gives, or
/// neither.
#[derive(Clone, Copy, Debug, PartialEq, Eq)]
pub struct Trap {
    pub exit_status: Option<i32>,
    pub trap_code: Option<TrapCode>,
}

impl Trap {
    /// The trap by which a guest halts with `status`.
    pub fn i32_exit(status: i32) -> (trap: Trap)
        ensures
            trap == (Trap { exit_status: Some(status), trap_code: None }),
    {
        Trap { exit_status: Some(status), trap_code: None }
    }

    /// The trap that the engine raises for `code`.
    pub fn from_code(code: TrapCode) -> (trap: Trap)
        ensures
            trap == (Trap { exit_status: None, trap_code: Some(code) }),
    {
        Trap { exit_status: None, trap_code: Some(code) }
    }

    /// A trap that carries neither a status nor a code.
    pub fn other() -> (trap: Trap)
        ensures
            trap == (Trap { exit_status: None, trap_code: None }),
    {
        Trap { exit_status: None, trap_code: None }
    }

    /// The exit code of a trap: the exit status where there is one, else the
    /// code that the engine's reason maps to, else the unknown error.
    pub open spec fn spec_exit_code(&self) -> i32 {
        match self.exit_status {
            Some(status) => status,
            None => match self.trap_code {
                Some(code) => ExitCode::from_trap_code(code).into_i32(),
                None => ExitCode::UnknownError.into_i32(),
            },
        }
    }
}

/// What can go wrong with an invocation.
#[derive(Clone, Copy, Debug, PartialEq, Eq)]
pub enum RuntimeError {
    /// The bytecode is no module that the engine can load.
    ModuleLoad,
    /// The module could not be linked or instantiated.
    Instantiation,
    /// Guest code trapped, in the start function or in the entry point.
    Trap(Trap),
    /// The module exports no entry point.
    MissingEntrypoint,
    /// Anything else that surfaced through the engine.
    Other,
}

impl RuntimeError {
    /// The exit code that the error is reported as where traps are caught:
    /// that of the trap it carries, and the unknown error for any other.
    pub open spec fn spec_exit_code(&self) -> i32 {
        match *self {
            RuntimeError::Trap(trap) => trap.spec_exit_code(),
            _ => ExitCode::UnknownError.into_i32(),
        }
    }
}

} // verus!
