//! One of two modules whose type names clash until renamed by their
//! descriptors.

use vstd::prelude::*;
use crate::lang::EnumType;
use crate::lang::EnumV;
use crate::lang::Variant;
use crate::lang::VariantV;

verus! {

/// A status enum whose bare name clashes with its sibling module's.
#[derive(Clone, Copy, PartialEq, Eq, Structural, Debug)]
pub enum Status {
    /// First state.
    X,
    /// Second state.
    Y,
}

/// The descriptor of [`Status`], rendered under the disambiguated name.
pub fn status_type_info() -> (r: EnumType)
    ensures
        r@ == (EnumV {
            name: "Status1"@,
            variants: seq![
                VariantV { name: "X"@, value: 1u64, docs: Seq::<char>::empty() },
                VariantV { name: "Y"@, value: 2u64, docs: Seq::<char>::empty() },
            ],
        }),
{
    let mut variants: Vec<Variant> = Vec::new();
    variants.push(Variant::new(String::from_str("X"), 1));
    variants.push(Variant::new(String::from_str("Y"), 2));
    let e = EnumType::new(String::from_str("Status1"), variants);
    proof {
        assert(e@.variants =~= seq![
            VariantV { name: "X"@, value: 1u64, docs: Seq::<char>::empty() },
            VariantV { name: "Y"@, value: 2u64, docs: Seq::<char>::empty() },
        ]);
    }
    e
}

} // verus!
