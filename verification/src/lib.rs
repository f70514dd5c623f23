//! Small verified building blocks: a checked narrowing of binary64 bit
//! patterns to `i32`, a reply that is given only to texts that start with
//! "me", and the substitution of a default for a missing reply.

pub mod binary64;
pub mod from_float;
pub mod reply;
