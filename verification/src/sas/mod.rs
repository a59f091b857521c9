//! Decoding primitives.

pub mod byte_swap;
pub mod conversion;
pub mod is_missing;
pub mod read_int;
