//! String patterns at the FFI boundary: a nul-terminated read-only C
//! string, and an owned UTF-8 string whose ownership crosses the boundary
//! exactly once.

use vstd::prelude::*;
use crate::Error;

verus! {

/// The position of the first nul byte, if any.
pub open spec fn first_nul(bytes: Seq<u8>) -> Option<int>
    decreases bytes.len(),
{
    if bytes.len() == 0 {
        None
    } else if bytes[0] == 0 {
        Some(0)
    } else {
        match first_nul(bytes.drop_first()) {
            Some(i) => Some(i + 1),
            None => None,
        }
    }
}

/// A nul-terminated read-only byte string as C sees it. An empty byte list
/// models the null pointer; every non-null value contains a nul terminator.
pub struct CStrPointer {
    bytes: Vec<u8>,
}

impl View for CStrPointer {
    type V = Seq<u8>;

    closed spec fn view(&self) -> Seq<u8> {
        self.bytes@
    }
}

impl CStrPointer {
    /// A non-null value holds a nul terminator; the null pointer is the
    /// empty byte list.
    pub open spec fn wf(&self) -> bool {
        self@.len() == 0 || self@.contains(0u8)
    }

    /// The null pointer.
    pub fn null() -> (r: Self)
        ensures
            r.wf(),
            r@.len() == 0,
    {
        CStrPointer { bytes: Vec::new() }
    }

    /// A pointer to an empty string: a single nul byte.
    pub fn empty() -> (r: Self)
        ensures
            r.wf(),
            r@ == seq![0u8],
    {
        let mut bytes: Vec<u8> = Vec::new();
        bytes.push(0);
        proof {
            assert(bytes@ =~= seq![0u8]);
            assert(bytes@[0] == 0u8);
        }
        CStrPointer { bytes }
    }

    /// Wraps a byte string. The bytes must contain a nul (`0x0`) somewhere,
    /// though not necessarily at the end; bytes without one are rejected.
    pub fn from_slice_with_nul(cstr_with_nul: Vec<u8>) -> (r: Result<Self, Error>)
        ensures
            match r {
                Ok(p) => p.wf() && p@ == cstr_with_nul@ && cstr_with_nul@.contains(0u8),
                Err(e) => e == Error::NulTerminated && !cstr_with_nul@.contains(0u8),
            },
    {
        let n: usize = cstr_with_nul.len();
        let mut i: usize = 0;
        while i < n
            invariant
                n == cstr_with_nul@.len(),
                i <= n,
                forall|k: int| 0 <= k < i ==> cstr_with_nul@[k] != 0u8,
            decreases n - i,
        {
            if cstr_with_nul[i] == 0 {
                assert(cstr_with_nul@.contains(0u8));
                return Ok(CStrPointer { bytes: cstr_with_nul });
            }
            i = i + 1;
        }
        assert(!cstr_with_nul@.contains(0u8));
        Err(Error::NulTerminated)
    }

    /// The bytes before the first nul, when the pointer is not null.
    pub open spec fn c_str_bytes(&self) -> Seq<u8> {
        match first_nul(self@) {
            Some(i) => self@.take(i),
            None => self@,
        }
    }

    /// All bytes before the terminator are ASCII.
    pub open spec fn is_ascii(&self) -> bool {
        forall|k: int|
            0 <= k < self.c_str_bytes().len() ==> #[trigger] self.c_str_bytes()[k] < 128
    }

    /// Reads the string as text: exactly the bytes before the first nul,
    /// as characters. Fails with [`Error::Null`] on the null pointer and
    /// with [`Error::Ascii`] exactly when a byte before the terminator is
    /// not ASCII.
    pub fn as_str(&self) -> (r: Result<String, Error>)
        requires
            self.wf(),
        ensures
            r is Ok <==> self@.len() > 0 && self.is_ascii(),
            match r {
                Ok(s) => {
                    &&& s@.len() == self.c_str_bytes().len()
                    &&& forall|k: int|
                        0 <= k < s@.len() ==> #[trigger] s@[k] == self.c_str_bytes()[k] as char
                },
                Err(e) => e == Error::Null && self@.len() == 0 || e == Error::Ascii
                    && self@.len() > 0,
            },
    {
        let n: usize = self.bytes.len();
        if n == 0 {
            return Err(Error::Null);
        }
        let mut i: usize = 0;
        let mut out: Vec<char> = Vec::new();
        while i < n
            invariant
                self.wf(),
                n == self@.len(),
                n > 0,
                i <= n,
                out@.len() == i,
                forall|k: int| 0 <= k < i ==> self@[k] != 0u8,
                forall|k: int| 0 <= k < i ==> self@[k] < 128,
                forall|k: int| 0 <= k < i ==> #[trigger] out@[k] == self@[k] as char,
            decreases n - i,
        {
            let b = self.bytes[i];
            if b == 0 {
                proof {
                    lemma_first_nul_here(self@, i as int);
                    assert(self.c_str_bytes() =~= self@.take(i as int));
                    assert forall|k: int|
                        0 <= k < self.c_str_bytes().len() implies #[trigger] self.c_str_bytes()[k]
                        < 128 by {
                        assert(self.c_str_bytes()[k] == self@[k]);
                    }
                }
                let s = chars_to_string(out);
                return Ok(s);
            }
            if b >= 128 {
                proof {
                    lemma_first_nul_beyond(self@, i as int + 1);
                    lemma_first_nul_bounds(self@);
                    match first_nul(self@) {
                        Some(fi) => {
                            assert(i < fi <= self@.len());
                            assert(self.c_str_bytes() == self@.take(fi));
                            assert(self.c_str_bytes()[i as int] == self@[i as int]);
                        },
                        None => {
                            assert(self.c_str_bytes() == self@);
                        },
                    }
                    assert(self.c_str_bytes()[i as int] >= 128);
                    assert(!self.is_ascii());
                }
                return Err(Error::Ascii);
            }
            out.push(b as char);
            i = i + 1;
        }
        proof {
            lemma_first_nul_none(self@);
            assert(self@.contains(0u8));
            let k = choose|k: int| 0 <= k < self@.len() && self@[k] == 0u8;
        }
        Err(Error::Ascii)
    }
}

/// If no position below `i` holds a nul, the first nul is at `i` or later.
proof fn lemma_first_nul_beyond(bytes: Seq<u8>, i: int)
    requires
        0 <= i <= bytes.len(),
        forall|k: int| 0 <= k < i ==> bytes[k] != 0u8,
    ensures
        first_nul(bytes) matches Some(fi) ==> fi >= i,
    decreases i,
{
    lemma_first_nul_bounds(bytes);
    if i > 0 {
        assert(bytes[0] != 0u8);
        let tail = bytes.drop_first();
        assert forall|k: int| 0 <= k < i - 1 implies tail[k] != 0u8 by {
            assert(tail[k] == bytes[k + 1]);
        }
        lemma_first_nul_beyond(tail, i - 1);
        match first_nul(tail) {
            Some(j) => {
                assert(first_nul(bytes) == Some(j + 1));
            },
            None => {
                assert(first_nul(bytes) is None);
            },
        }
    }
}

/// The first nul, when there is one, lies inside the byte string and
/// holds a nul.
proof fn lemma_first_nul_bounds(bytes: Seq<u8>)
    ensures
        first_nul(bytes) matches Some(fi) ==> 0 <= fi < bytes.len() && bytes[fi] == 0u8,
    decreases bytes.len(),
{
    if bytes.len() > 0 && bytes[0] != 0 {
        let tail = bytes.drop_first();
        lemma_first_nul_bounds(tail);
        match first_nul(tail) {
            Some(j) => {
                assert(tail[j] == bytes[j + 1]);
            },
            None => {},
        }
    }
}

/// A nul at `i` with none before it is the first nul.
proof fn lemma_first_nul_here(bytes: Seq<u8>, i: int)
    requires
        0 <= i < bytes.len(),
        bytes[i] == 0u8,
        forall|k: int| 0 <= k < i ==> bytes[k] != 0u8,
    ensures
        first_nul(bytes) == Some(i),
    decreases i,
{
    if i == 0 {
    } else {
        assert(bytes[0] != 0u8);
        let tail = bytes.drop_first();
        assert(tail[i - 1] == 0u8);
        assert forall|k: int| 0 <= k < i - 1 implies tail[k] != 0u8 by {
            assert(tail[k] == bytes[k + 1]);
        }
        lemma_first_nul_here(tail, i - 1);
    }
}

/// A sequence without any nul has no first nul.
proof fn lemma_first_nul_none(bytes: Seq<u8>)
    requires
        forall|k: int| 0 <= k < bytes.len() ==> bytes[k] != 0u8,
    ensures
        first_nul(bytes) is None,
    decreases bytes.len(),
{
    if bytes.len() > 0 {
        let tail = bytes.drop_first();
        assert forall|k: int| 0 <= k < tail.len() implies tail[k] != 0u8 by {
            assert(tail[k] == bytes[k + 1]);
        }
        lemma_first_nul_none(tail);
    }
}

/// Relies on String::from_iter over chars: the collected string holds
/// exactly the given characters.
#[verifier::external_body]
pub(crate) fn chars_to_string(chars: Vec<char>) -> (r: String)
    ensures
        r@ == chars@,
{
    chars.into_iter().collect()
}

/// An owned UTF-8 string crossing the FFI boundary: on the wire a pointer,
/// length and capacity whose ownership transfers exactly once. The receiver
/// must consume it exactly once; this model carries the text by value, so
/// Rust's move semantics enforce the single consumption.
pub struct Utf8String {
    value: String,
}

impl View for Utf8String {
    type V = Seq<char>;

    closed spec fn view(&self) -> Seq<char> {
        self.value@
    }
}

impl Utf8String {
    /// Takes ownership of a string for the transfer.
    pub fn from_string(s: String) -> (r: Self)
        ensures
            r@ == s@,
    {
        Utf8String { value: s }
    }

    /// Reads the text without consuming the value.
    pub fn as_str(&self) -> (r: &str)
        ensures
            r@ == self@,
    {
        self.value.as_str()
    }

    /// Consumes the value, handing the text back; the one-time transfer
    /// ends here.
    pub fn into_string(self) -> (r: String)
        ensures
            r@ == self@,
    {
        self.value
    }
}

impl Clone for Utf8String {
    fn clone(&self) -> (r: Self)
        ensures
            r@ == self@,
    {
        Utf8String { value: self.value.clone() }
    }
}

} // verus!

verus! {

/// The descriptor of the owned-string pattern: a byte pointer, a 64-bit
/// length and a 64-bit capacity, in the layout order the wire shape fixes.
pub fn utf8_string_type_info(b: &mut crate::inventory::InventoryBuilder) -> (id:
    crate::lang::TypeId)
    requires
        old(b).wf(),
    ensures
        final(b).wf(),
        final(b).inv() == old(b).inv(),
        old(b).types().len() <= final(b).types().len(),
        final(b).types().take(old(b).types().len() as int) == old(b).types(),
        id < final(b).types().len(),
        final(b).types()[id as int] matches crate::lang::CTypeV::Pattern(
            crate::lang::TypePatternV::Utf8String(c),
        ) && crate::inventory::utf8_shape_ok(final(b).types(), c) && c.name == "Utf8String"@,
{
    let byte_ptr = b.intern(crate::lang::CType::ReadWritePointer(crate::lang::TYPE_U8));
    let mut fields: Vec<crate::lang::Field> = Vec::new();
    fields.push(crate::lang::Field::new(String::from_str("ptr"), byte_ptr));
    fields.push(crate::lang::Field::new(String::from_str("len"), crate::lang::TYPE_U64));
    fields.push(crate::lang::Field::new(String::from_str("capacity"), crate::lang::TYPE_U64));
    let composite = crate::lang::CompositeType::new(String::from_str("Utf8String"), fields);
    proof {
        assert(composite@.fields.len() == 3);
        assert(crate::lang::node_children(
            crate::lang::CTypeV::Pattern(crate::lang::TypePatternV::Utf8String(composite@)),
        ) =~= seq![byte_ptr, crate::lang::TYPE_U64, crate::lang::TYPE_U64]);
    }
    let id = b.intern(
        crate::lang::CType::Pattern(crate::lang::TypePattern::Utf8String(composite)),
    );
    id
}

} // verus!
