//! The sibling module whose type names clash with `ambiguous1` until
//! renamed by their descriptors.

use vstd::prelude::*;
use crate::lang::EnumType;
use crate::lang::EnumV;
use crate::lang::Variant;
use crate::lang::VariantV;

verus! {

/// A status enum whose bare name clashes with its sibling module's.
#[derive(Clone, Copy, PartialEq, Eq, Structural, Debug)]
pub enum Status {
    /// First state.
    X,
    /// Third state.
    Z,
}

/// The descriptor of [`Status`], rendered under the disambiguated name.
pub fn status_type_info() -> (r: EnumType)
    ensures
        r@ == (EnumV {
            name: "Status2"@,
            variants: seq![
                VariantV { name: "X"@, value: 100u64, docs: Seq::<char>::empty() },
                VariantV { name: "Z"@, value: 200u64, docs: Seq::<char>::empty() },
            ],
        }),
{
    let mut variants: Vec<Variant> = Vec::new();
    variants.push(Variant::new(String::from_str("X"), 100));
    variants.push(Variant::new(String::from_str("Z"), 200));
    let e = EnumType::new(String::from_str("Status2"), variants);
    proof {
        assert(e@.variants =~= seq![
            VariantV { name: "X"@, value: 100u64, docs: Seq::<char>::empty() },
            VariantV { name: "Z"@, value: 200u64, docs: Seq::<char>::empty() },
        ]);
    }
    e
}

} // verus!
