//! Example functions over arrays and plain structs.

use vstd::prelude::*;

verus! {

/// A fixed 16-byte array payload.
pub struct Array {
    /// The bytes.
    pub data: [u8; 16],
}

/// A fixed-capacity byte string.
pub struct FixedString {
    /// The bytes; unused capacity is zero.
    pub data: [u8; 32],
}

/// Two fixed-capacity byte strings.
pub struct CharArray {
    /// The first string.
    pub text: FixedString,
    /// The second string.
    pub text_2: FixedString,
}

/// A one-field tuple struct.
pub struct Tupled(pub u8);

/// A struct with a single boolean field.
pub struct BoolField {
    /// The flag.
    pub val: bool,
}

/// Reads the first byte of the array.
pub fn array_1(x: Array) -> (r: u8)
    ensures
        r == x.data@[0],
{
    x.data[0]
}

/// Builds the array holding 1 through 16.
pub fn array_2() -> (r: Array)
    ensures
        forall|k: int| 0 <= k < 16 ==> #[trigger] r.data@[k] == k + 1,
{
    let a = Array { data: [1, 2, 3, 4, 5, 6, 7, 8, 9, 10, 11, 12, 13, 14, 15, 16] };
    proof {
        assert(forall|k: int| 0 <= k < 16 ==> #[trigger] a.data@[k] == k + 1) by {
            assert(a.data@ =~= seq![
                1u8, 2, 3, 4, 5, 6, 7, 8, 9, 10, 11, 12, 13, 14, 15, 16,
            ]);
        }
    }
    a
}

/// Writes 42 into the first byte.
pub fn array_3(arr: &mut Array)
    ensures
        final(arr).data@ == old(arr).data@.update(0, 42u8),
{
    arr.data[0] = 42;
}

/// Builds two byte strings, the first holding a greeting.
pub fn char_array_1() -> (r: CharArray)
    ensures
        r.text.data@[0] == 72u8,
        r.text.data@[12] == 33u8,
        r.text.data@[13] == 0u8,
        r.text_2.data@[0] == 0u8,
{
    let text = FixedString {
        data: [
            72, 101, 108, 108, 111, 44, 32, 87, 111, 114, 108, 100, 33, 0, 0, 0, 0, 0, 0, 0, 0,
            0, 0, 0, 0, 0, 0, 0, 0, 0, 0, 0,
        ],
    };
    let text_2 = FixedString {
        data: [
            0, 0, 0, 0, 0, 0, 0, 0, 0, 0, 0, 0, 0, 0, 0, 0, 0, 0, 0, 0, 0, 0, 0, 0, 0, 0, 0, 0,
            0, 0, 0, 0,
        ],
    };
    CharArray { text, text_2 }
}

/// Hands the pair back unchanged.
pub fn char_array_2(arr: CharArray) -> (r: CharArray)
    ensures
        r == arr,
{
    arr
}

/// Reads the first byte of the first string.
pub fn char_array_3(arr: &CharArray) -> (r: u8)
    ensures
        r == arr.text.data@[0],
{
    arr.text.data[0]
}

/// Doubles the wrapped value.
pub fn struct1(x: Tupled) -> (r: Tupled)
    requires
        x.0 <= 127,
    ensures
        r.0 == x.0 * 2,
{
    Tupled(x.0 * 2)
}

/// Reads the flag.
pub fn struct3(x: BoolField) -> (r: bool)
    ensures
        r == x.val,
{
    x.val
}

} // verus!

verus! {

/// A demo enum carried inside the nested struct.
#[derive(Clone, Copy, PartialEq, Eq, Structural, Debug)]
pub enum EnumRenamedXYZ {
    /// The only used state.
    X,
}

/// A struct nesting an enum, plain fields, fixed arrays and another
/// struct. (The interface's vector-of-floats field has no place in this
/// model and is left to the raw declarations.)
pub struct NestedArray {
    /// The nested enum.
    pub field_enum: EnumRenamedXYZ,
    /// A flag.
    pub field_bool: bool,
    /// A plain integer.
    pub field_int: i32,
    /// A first fixed array.
    pub field_array: [u16; 5],
    /// A second fixed array.
    pub field_array_2: [u16; 5],
    /// A nested struct.
    pub field_struct: Array,
}

/// Builds the fully-populated nested struct.
pub fn nested_array_1() -> (r: NestedArray)
    ensures
        r.field_enum == EnumRenamedXYZ::X,
        r.field_bool,
        r.field_int == 42,
        r.field_array@[0] == 1u16,
        r.field_struct.data@[1] == 2u8,
{
    let a = NestedArray {
        field_enum: EnumRenamedXYZ::X,
        field_bool: true,
        field_int: 42,
        field_array: [1, 2, 3, 4, 5],
        field_array_2: [6, 7, 8, 9, 10],
        field_struct: Array { data: [1, 2, 3, 4, 5, 6, 7, 8, 9, 10, 11, 12, 13, 14, 15, 16] },
    };
    proof {
        assert(a.field_array@ =~= seq![1u16, 2, 3, 4, 5]);
        assert(a.field_struct.data@ =~= seq![
            1u8, 2, 3, 4, 5, 6, 7, 8, 9, 10, 11, 12, 13, 14, 15, 16,
        ]);
    }
    a
}

/// Overwrites the out-parameter with the fully-populated nested struct.
pub fn nested_array_2(result: &mut NestedArray)
    ensures
        final(result).field_enum == EnumRenamedXYZ::X,
        final(result).field_bool,
        final(result).field_int == 42,
        final(result).field_struct.data@[1] == 2u8,
        final(result).field_array_2 == old(result).field_array_2,
{
    result.field_enum = EnumRenamedXYZ::X;
    result.field_bool = true;
    result.field_int = 42;
    result.field_array = [1, 2, 3, 4, 5];
    result.field_struct = Array { data: [1, 2, 3, 4, 5, 6, 7, 8, 9, 10, 11, 12, 13, 14, 15, 16] };
    proof {
        assert(result.field_struct.data@ =~= seq![
            1u8, 2, 3, 4, 5, 6, 7, 8, 9, 10, 11, 12, 13, 14, 15, 16,
        ]);
    }
}

/// Reads the second byte of the nested struct's array.
pub fn nested_array_3(input: NestedArray) -> (r: u8)
    ensures
        r == input.field_struct.data@[1],
{
    input.field_struct.data[1]
}

} // verus!
