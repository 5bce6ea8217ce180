//! Typed accessors for Solidity-style storage slots: which accessor is
//! generated for which declaration.

pub mod accessor;
pub mod types;
