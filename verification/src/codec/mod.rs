//! Length-prefixed encoding of values at the host/guest data boundary.

pub mod buffer;
pub mod encoder;
pub mod vec;
