//! Exit codes of an invocation, and the codes that engine traps map to.

use vstd::prelude::*;

verus! {

/// How an invocation ended, as the host reports it. Zero is success,
/// positive numbers belong to the guest, negative ones to the host.
#[derive(Clone, Copy, Debug, PartialEq, Eq, Hash)]
pub enum ExitCode {
    Success,
    UnreachableCodeReached,
    MemoryOutOfBounds,
    TableOutOfBounds,
    IndirectCallToNull,
    IntegerDivisionByZero,
    IntegerOverflow,
    BadConversionToInteger,
    StackOverflow,
    BadSignature,
    OutOfFuel,
    GrowthOperationLimited,
    UnknownError,
}

/// Why the engine stopped a guest.
#[derive(Clone, Copy, Debug, PartialEq, Eq, Hash)]
pub enum TrapCode {
    UnreachableCodeReached,
    MemoryOutOfBounds,
    TableOutOfBounds,
    IndirectCallToNull,
    IntegerDivisionByZero,
    IntegerOverflow,
    BadConversionToInteger,
    StackOverflow,
    BadSignature,
    OutOfFuel,
    GrowthOperationLimited,
}

impl ExitCode {
    /// The number that stands for the code.
    pub open spec fn spec_into_i32(self) -> i32 {
        match self {
            ExitCode::Success => 0i32,
            ExitCode::UnreachableCodeReached => -2006i32,
            ExitCode::MemoryOutOfBounds => -2007i32,
            ExitCode::TableOutOfBounds => -2008i32,
            ExitCode::IndirectCallToNull => -2009i32,
            ExitCode::IntegerDivisionByZero => -2010i32,
            ExitCode::IntegerOverflow => -2011i32,
            ExitCode::BadConversionToInteger => -2012i32,
            ExitCode::StackOverflow => -2013i32,
            ExitCode::BadSignature => -2014i32,
            ExitCode::OutOfFuel => -2015i32,
            ExitCode::GrowthOperationLimited => -2016i32,
            ExitCode::UnknownError => -1i32,
        }
    }

    /// The code that a trap of the engine is reported as.
    pub open spec fn spec_from_trap_code(code: TrapCode) -> ExitCode {
        match code {
            TrapCode::UnreachableCodeReached => ExitCode::UnreachableCodeReached,
            TrapCode::MemoryOutOfBounds => ExitCode::MemoryOutOfBounds,
            TrapCode::TableOutOfBounds => ExitCode::TableOutOfBounds,
            TrapCode::IndirectCallToNull => ExitCode::IndirectCallToNull,
            TrapCode::IntegerDivisionByZero => ExitCode::IntegerDivisionByZero,
            TrapCode::IntegerOverflow => ExitCode::IntegerOverflow,
            TrapCode::BadConversionToInteger => ExitCode::BadConversionToInteger,
            TrapCode::StackOverflow => ExitCode::StackOverflow,
            TrapCode::BadSignature => ExitCode::BadSignature,
            TrapCode::OutOfFuel => ExitCode::OutOfFuel,
            TrapCode::GrowthOperationLimited => ExitCode::GrowthOperationLimited,
        }
    }

    /// The number that stands for the code.
    #[verifier::when_used_as_spec(spec_into_i32)]
    pub fn into_i32(self) -> (code: i32)
        ensures
            code == self.spec_into_i32(),
    {
        match self {
            ExitCode::Success => 0i32,
            ExitCode::UnreachableCodeReached => -2006i32,
            ExitCode::MemoryOutOfBounds => -2007i32,
            ExitCode::TableOutOfBounds => -2008i32,
            ExitCode::IndirectCallToNull => -2009i32,
            ExitCode::IntegerDivisionByZero => -2010i32,
            ExitCode::IntegerOverflow => -2011i32,
            ExitCode::BadConversionToInteger => -2012i32,
            ExitCode::StackOverflow => -2013i32,
            ExitCode::BadSignature => -2014i32,
            ExitCode::OutOfFuel => -2015i32,
            ExitCode::GrowthOperationLimited => -2016i32,
            ExitCode::UnknownError => -1i32,
        }
    }

    /// The code that a trap of the engine is reported as.
    #[verifier::when_used_as_spec(spec_from_trap_code)]
    pub fn from_trap_code(code: TrapCode) -> (exit: ExitCode)
        ensures
            exit == Self::spec_from_trap_code(code),
    {
        match code {
            TrapCode::UnreachableCodeReached => ExitCode::UnreachableCodeReached,
            TrapCode::MemoryOutOfBounds => ExitCode::MemoryOutOfBounds,
            TrapCode::TableOutOfBounds => ExitCode::TableOutOfBounds,
            TrapCode::IndirectCallToNull => ExitCode::IndirectCallToNull,
            TrapCode::IntegerDivisionByZero => ExitCode::IntegerDivisionByZero,
            TrapCode::IntegerOverflow => ExitCode::IntegerOverflow,
            TrapCode::BadConversionToInteger => ExitCode::BadConversionToInteger,
            TrapCode::StackOverflow => ExitCode::StackOverflow,
            TrapCode::BadSignature => ExitCode::BadSignature,
            TrapCode::OutOfFuel => ExitCode::OutOfFuel,
            TrapCode::GrowthOperationLimited => ExitCode::GrowthOperationLimited,
        }
    }
}

/// Different codes have different numbers, and only success has zero.
pub proof fn lemma_exit_codes_distinct(a: ExitCode, b: ExitCode)
    ensures
        a.into_i32() == b.into_i32() ==> a == b,
        a.into_i32() == 0 <==> a == ExitCode::Success,
{
}

/// A trap of the engine is reported as a negative number, never as success
/// and never as the unknown error, and different traps as different
/// numbers.
pub proof fn lemma_trap_codes(a: TrapCode, b: TrapCode)
    ensures
        ExitCode::from_trap_code(a).into_i32() < -1,
        ExitCode::from_trap_code(a) == ExitCode::from_trap_code(b) ==> a == b,
{
}

} // verus!
