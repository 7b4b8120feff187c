//! An option-like type for the FFI boundary where a regular [`Option`]
//! does not work: the payload is stored inline and an 8-bit discriminant
//! tells whether it is present, giving a fixed, predictable layout.

use vstd::prelude::*;

verus! {

/// An inline option at the FFI boundary.
///
/// The option is considered `Some` if and only if `is_some` is `1`; all
/// other discriminant values mean `None`.
pub struct FFIOption<T> {
    /// The payload slot; meaningful only when `is_some` is `1`.
    pub t: T,
    /// The discriminant: `1` means present.
    pub is_some: u8,
}

impl<T> View for FFIOption<T> {
    type V = Option<T>;

    open spec fn view(&self) -> Option<T> {
        if self.is_some == 1 {
            Some(self.t)
        } else {
            None
        }
    }
}

/// The encoding of an option, with `d` as the payload slot of an absent
/// value.
pub open spec fn encoded_option<T>(o: Option<T>, d: T) -> FFIOption<T> {
    match o {
        Some(x) => FFIOption { t: x, is_some: 1 },
        None => FFIOption { t: d, is_some: 0 },
    }
}

impl<T> FFIOption<T> {
    /// A present value.
    pub fn some(data: T) -> (r: Self)
        ensures
            r@ == Some(data),
    {
        Self { is_some: 1, t: data }
    }

    /// Decodes into a regular option.
    pub fn into_option(self) -> (r: Option<T>)
        ensures
            r == self@,
    {
        if self.is_some == 1 {
            Some(self.t)
        } else {
            None
        }
    }

    /// Borrows the payload when present.
    pub fn as_ref(&self) -> (r: Option<&T>)
        ensures
            match r {
                Some(v) => self@ == Some(*v),
                None => self@ is None,
            },
    {
        if self.is_some == 1 {
            Some(&self.t)
        } else {
            None
        }
    }

    /// Whether a value is present.
    pub fn is_some(&self) -> (r: bool)
        ensures
            r == (self@ is Some),
    {
        self.is_some == 1
    }

    /// Whether no value is present.
    pub fn is_none(&self) -> (r: bool)
        ensures
            r == (self@ is None),
    {
        !self.is_some()
    }

    /// Takes the value out.
    pub fn unwrap(self) -> (r: T)
        requires
            self@ is Some,
        ensures
            self@ == Some(r),
    {
        self.t
    }

    /// Borrows the payload mutably when present.
    pub fn as_mut(&mut self) -> (r: Option<&mut T>)
        ensures
            old(self)@ is Some <==> r is Some,
            r matches Some(v) ==> *v == old(self).t && *final(self) == (FFIOption {
                t: *final(v),
                is_some: old(self).is_some,
            }),
            r is None ==> *final(self) == *old(self),
    {
        if self.is_some == 1 {
            Some(&mut self.t)
        } else {
            None
        }
    }

    /// Borrows the value mutably.
    pub fn unwrap_as_mut(&mut self) -> (r: &mut T)
        requires
            old(self)@ is Some,
        ensures
            *r == old(self).t,
            old(self)@ == Some(*r),
            *final(self) == (FFIOption { t: *final(r), is_some: old(self).is_some }),
            final(self)@ == Some(*final(r)),
    {
        &mut self.t
    }
}

impl<T: Default> FFIOption<T> {
    /// An absent value; the payload slot holds the type's default.
    pub fn none() -> (r: Self)
        ensures
            r@ is None,
    {
        Self { is_some: 0, t: T::default() }
    }

    /// Encodes a regular option.
    pub fn from_option(option: Option<T>) -> (r: Self)
        ensures
            r@ == option,
    {
        match option {
            None => Self::none(),
            Some(t) => Self::some(t),
        }
    }
}

/// Encoding a value and decoding it again yields the value: decoding
/// `encoded_option(o, d)` gives back `o`, whatever default `d` filled the
/// absent payload slot.
pub proof fn lemma_option_round_trip<T>(o: Option<T>, d: T)
    ensures
        encoded_option(o, d)@ == o,
{
}

/// Repeated encoding and decoding is idempotent: re-encoding what an
/// encoded option decodes to decodes to the same option again, for every
/// encoded value, including ones whose discriminant is neither 0 nor 1.
pub proof fn lemma_option_codec_idempotent<T>(e: FFIOption<T>, d: T)
    ensures
        encoded_option(e@, d)@ == e@,
{
}

} // verus!

verus! {

/// The descriptor of an inline option over the given payload type: a
/// composite named after the payload, with the literal payload field `t`
/// and the 8-bit discriminant `is_some` — the shape validation demands.
pub fn option_type_info(
    b: &mut crate::inventory::InventoryBuilder,
    payload: crate::lang::TypeId,
) -> (id: crate::lang::TypeId)
    requires
        old(b).wf(),
        payload < old(b).types().len(),
    ensures
        final(b).wf(),
        final(b).inv() == old(b).inv(),
        old(b).types().len() <= final(b).types().len(),
        final(b).types().take(old(b).types().len() as int) == old(b).types(),
        id < final(b).types().len(),
        final(b).types()[id as int] matches crate::lang::CTypeV::Pattern(
            crate::lang::TypePatternV::Optional(c),
        ) && crate::inventory::optional_shape_ok(c) && c.name == "FFIOption"@
            + crate::lang::ctype_name_v(old(b).types()[payload as int]),
{
    let payload_name = b.graph().get(payload).name_within_lib();
    let mut name = String::from_str("FFIOption");
    name.append(payload_name.as_str());
    let mut fields: Vec<crate::lang::Field> = Vec::new();
    fields.push(crate::lang::Field::new(String::from_str("t"), payload));
    fields.push(crate::lang::Field::new(String::from_str("is_some"), crate::lang::TYPE_U8));
    let composite = crate::lang::CompositeType::new(name, fields);
    proof {
        assert(composite@.fields.len() == 2);
        assert(composite@.fields[0].name == "t"@);
        assert(composite@.fields[1].name == "is_some"@);
        assert(crate::lang::node_children(
            crate::lang::CTypeV::Pattern(crate::lang::TypePatternV::Optional(composite@)),
        ) =~= seq![payload, crate::lang::TYPE_U8]);
    }
    b.intern(crate::lang::CType::Pattern(crate::lang::TypePattern::Optional(composite)))
}

} // verus!
