//! Generates foreign-language bindings for a native library from an explicit
//! interface description.
//!
//! The core is an intermediate representation of C-level types and functions,
//! an inventory builder that validates a registered interface and produces an
//! immutable library description, pattern contracts for higher-level FFI
//! idioms (services, slices, options, strings, callbacks, error enums), and a
//! deterministic code generator that lowers the validated library into
//! target-language declarations.

pub mod asynk;
pub mod backend_c;
pub mod backend_cpython;
pub mod backend_csharp;
pub mod callbacks;
pub mod inventory;
pub mod lang;
pub mod naming;
pub mod option;
pub mod pattern;
pub mod proc_attrs;
pub mod reference;
pub mod service_rt;
pub mod slice;
pub mod strings;
pub mod surrogates;

use vstd::prelude::*;

verus! {

/// Errors reported by the runtime pattern helpers.
#[derive(Clone, Copy, PartialEq, Eq, Structural, Debug)]
pub enum Error {
    /// A pointer that must not be null was null.
    Null,
    /// A byte string that must contain a nul terminator did not.
    NulTerminated,
    /// A byte string that must be ASCII contained a non-ASCII byte.
    Ascii,
}

} // verus!
