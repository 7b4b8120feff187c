//! Configuration carried by the annotation front-end when it describes
//! functions and types: parsed attribute arguments and their validity
//! rules.

use vstd::prelude::*;

verus! {

/// Arguments of a function annotation.
pub struct Attributes {
    /// Parameter-name to descriptor-function mappings for foreign types.
    pub surrogates: Vec<(String, String)>,
    /// Whether to print the emitted descriptor.
    pub debug: bool,
    /// Whether the caller vouches for the surrogate mappings.
    pub unsfe: bool,
}

impl Attributes {
    /// Surrogates reinterpret argument memory, so they demand the explicit
    /// vouch; annotations without that combination are valid as they are.
    pub fn assert_valid(&self)
        requires
            self.surrogates@.len() > 0 ==> self.unsfe,
    {
    }
}

/// Arguments of a type annotation.
pub struct FFITypeAttributes {
    /// Whether the type is exposed as an opaque handle.
    pub opaque: bool,
    /// Field-name to descriptor-function mappings for foreign fields.
    pub surrogates: Vec<(String, String)>,
    /// Fields left out of the descriptor.
    pub skip: Vec<String>,
    /// Free-form markers attached to the type.
    pub tags: Vec<String>,
}

} // verus!
