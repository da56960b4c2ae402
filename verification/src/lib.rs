//! Bindings between a dynamic host runtime and native functions.
//!
//! From the signature of a native function and the options it is
//! registered with, this crate decides how each argument is decoded, how
//! the return value is encoded, whether a fast entry point can stand
//! beside the generic one, and what the runtime registers. It also states
//! what the generated entry points do with the values of a call.

pub mod text;
pub mod pattern;
pub mod classify;
pub mod signature;
pub mod attrs;
pub mod generic_path;
pub mod optimizer;
pub mod fast_call;
pub mod binding;
pub mod marshal;
pub mod laws;
