//! Example types of the interface: composites, enums, generics and the
//! types that exercise surrogates and string patterns.

use vstd::prelude::*;
use crate::lang::CType;
use crate::lang::CTypeV;
use crate::lang::CompositeType;
use crate::lang::CompositeV;
use crate::lang::Field;
use crate::lang::FieldV;
use crate::lang::TYPE_U32;
use crate::strings::CStrPointer;

verus! {

/// A type from another crate that cannot carry a descriptor itself.
pub struct SomeForeignType {
    /// Its single field.
    pub x: u32,
}

/// The descriptor used in place of [`SomeForeignType`]: a composite with
/// a matching `u32` field.
pub fn some_foreign_type() -> (r: CType)
    ensures
        r@ == CTypeV::Composite(
            CompositeV {
                name: "SomeForeignType"@,
                fields: seq![FieldV { name: "x"@, ty: TYPE_U32, docs: Seq::<char>::empty() }],
            },
        ),
{
    let mut composite = CompositeType::new(String::from_str("SomeForeignType"), Vec::new());
    composite.add_field(Field::new(String::from_str("x"), TYPE_U32));
    proof {
        assert(composite@.fields =~= seq![
            FieldV { name: "x"@, ty: TYPE_U32, docs: Seq::<char>::empty() },
        ]);
    }
    CType::Composite(composite)
}

/// A struct with no fields.
pub struct Empty {

}

/// A generic struct carrying a borrowed payload.
pub struct Generic<'a, T> {
    /// The borrowed payload.
    pub x: &'a T,
}

/// A struct whose type parameter appears only in a marker.
pub struct Phantom<'a, T> {
    /// The visible field.
    pub x: u32,
    /// Pins the unused parameter.
    pub p: core::marker::PhantomData<&'a T>,
}

/// A struct carrying two foreign values through their surrogate
/// descriptor.
pub struct Container {
    /// The first foreign value.
    pub foreign1: SomeForeignType,
    /// The second foreign value.
    pub foreign2: SomeForeignType,
}

/// The interface's error enum; its descriptor reserves the success, null
/// and panic codes.
#[derive(Clone, Copy, PartialEq, Eq, Structural, Debug)]
pub enum FFIError {
    /// All went fine.
    Success,
    /// A null pointer was passed where it must not be.
    Null,
    /// A panic was caught at the boundary.
    Panic,
    /// The operation failed.
    Fail,
}

/// A documented enum.
#[derive(Clone, Copy, PartialEq, Eq, Structural, Debug)]
pub enum EnumDocumented {
    /// Variant A.
    A,
    /// Variant B.
    B,
}

/// A struct using the ASCII string pattern.
pub struct UseAsciiStringPattern {
    /// The carried string.
    pub ascii_string: CStrPointer,
}

/// An opaque context handle type for the init/use/destroy idiom.
pub struct Context {
    /// Internal state.
    pub some_field: u32,
}

} // verus!
