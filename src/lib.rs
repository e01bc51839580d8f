//! Runtime support beneath a static recompiler for a 64-bit MIPS CPU: the
//! execution context with its register aliases, the translation of guest
//! virtual addresses into an index of the guest memory buffer, and the
//! marshalling of call arguments and return values under the MIPS calling
//! convention.

pub mod types;
pub mod utils;
