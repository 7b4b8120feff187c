//! A representation of a borrowed array passed over an FFI boundary:
//! pointer plus 64-bit length, no ownership transfer. Its validity is
//! bounded to the call that received it.

use vstd::prelude::*;

verus! {

/// A borrowed view of an array at the FFI boundary. `None` models the null
/// pointer, which by the caller contract stands for an empty view.
pub struct FFISlice<'a, T> {
    data: Option<&'a [T]>,
}

impl<'a, T> View for FFISlice<'a, T> {
    type V = Seq<T>;

    closed spec fn view(&self) -> Seq<T> {
        match self.data {
            Some(s) => s@,
            None => Seq::empty(),
        }
    }
}

impl<'a, T> FFISlice<'a, T> {
    /// Wraps a borrowed slice.
    pub fn from_slice(slice: &'a [T]) -> (r: Self)
        ensures
            r@ == slice@,
    {
        FFISlice { data: Some(slice) }
    }

    /// An empty view, as a null pointer produces.
    pub fn null() -> (r: Self)
        ensures
            r@ == Seq::<T>::empty(),
    {
        FFISlice { data: None }
    }

    /// The borrowed contents; `None` when the pointer was null.
    pub fn as_slice(&self) -> (r: Option<&'a [T]>)
        ensures
            match r {
                Some(s) => s@ == self@,
                None => self@ == Seq::<T>::empty(),
            },
    {
        self.data
    }
}

/// The mutable variant of the borrowed view. The verified model exposes
/// the borrowed region's contents at call time; writes the native side
/// performs through the pointer lie outside the model and are stated by
/// the functions that make them.
pub struct FFISliceMut<'a, T> {
    data: Option<&'a [T]>,
}

impl<'a, T> View for FFISliceMut<'a, T> {
    type V = Seq<T>;

    closed spec fn view(&self) -> Seq<T> {
        match self.data {
            Some(s) => s@,
            None => Seq::empty(),
        }
    }
}

impl<'a, T> FFISliceMut<'a, T> {
    /// Wraps a borrowed slice.
    pub fn from_slice(slice: &'a [T]) -> (r: Self)
        ensures
            r@ == slice@,
    {
        FFISliceMut { data: Some(slice) }
    }

    /// The borrowed contents; `None` when the pointer was null.
    pub fn as_slice(&self) -> (r: Option<&'a [T]>)
        ensures
            match r {
                Some(s) => s@ == self@,
                None => self@ == Seq::<T>::empty(),
            },
    {
        self.data
    }
}

} // verus!

verus! {

/// The descriptor of a borrowed-slice pattern over the given element
/// type: a pointer to the element plus a 64-bit length, named after the
/// element — the wire shape validation demands.
pub fn slice_type_info(
    b: &mut crate::inventory::InventoryBuilder,
    element: crate::lang::TypeId,
) -> (id: crate::lang::TypeId)
    requires
        old(b).wf(),
        element < old(b).types().len(),
    ensures
        final(b).wf(),
        final(b).inv() == old(b).inv(),
        old(b).types().len() <= final(b).types().len(),
        final(b).types().take(old(b).types().len() as int) == old(b).types(),
        id < final(b).types().len(),
        final(b).types()[id as int] matches crate::lang::CTypeV::Pattern(
            crate::lang::TypePatternV::Slice(c),
        ) && crate::inventory::slice_shape_ok(final(b).types(), c, false) && c.name == "FFISlice"@
            + crate::lang::ctype_name_v(old(b).types()[element as int]),
{
    let element_name = b.graph().get(element).name_within_lib();
    let mut name = String::from_str("FFISlice");
    name.append(element_name.as_str());
    let elem_ptr = b.intern(crate::lang::CType::ReadPointer(element));
    let mut fields: Vec<crate::lang::Field> = Vec::new();
    fields.push(crate::lang::Field::new(String::from_str("ptr"), elem_ptr));
    fields.push(crate::lang::Field::new(String::from_str("len"), crate::lang::TYPE_U64));
    let composite = crate::lang::CompositeType::new(name, fields);
    proof {
        assert(composite@.fields.len() == 2);
        assert(crate::lang::node_children(
            crate::lang::CTypeV::Pattern(crate::lang::TypePatternV::Slice(composite@)),
        ) =~= seq![elem_ptr, crate::lang::TYPE_U64]);
    }
    b.intern(crate::lang::CType::Pattern(crate::lang::TypePattern::Slice(composite)))
}

} // verus!
