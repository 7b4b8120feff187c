//! Tests of the example interface: arrays, structs, callbacks, surrogates.

use interoptopus::lang::CType;
use interoptopus::reference::callbacks::pattern_callback_1;
use interoptopus::reference::callbacks::pattern_callback_2;
use interoptopus::reference::callbacks::pattern_callback_4;
use interoptopus::reference::callbacks::pattern_callback_5;
use interoptopus::reference::callbacks::pattern_callback_6;
use interoptopus::reference::callbacks::pattern_callback_7;
use interoptopus::reference::callbacks::exposed_sum2;
use interoptopus::reference::callbacks::MyCallbackVoid;
use interoptopus::reference::callbacks::SumDelegateReturn;
use interoptopus::reference::callbacks::SumDelegateReturn2;
use interoptopus::reference::functions::array_1;
use interoptopus::reference::functions::array_2;
use interoptopus::reference::functions::array_3;
use interoptopus::reference::functions::char_array_1;
use interoptopus::reference::functions::char_array_2;
use interoptopus::reference::functions::char_array_3;
use interoptopus::reference::functions::struct1;
use interoptopus::reference::functions::struct3;
use interoptopus::reference::functions::Array;
use interoptopus::reference::functions::BoolField;
use interoptopus::reference::functions::Tupled;
use interoptopus::reference::success_enum::FFIError;
use interoptopus::reference::types::some_foreign_type;
use interoptopus::callbacks::MyCallback;
use interoptopus::callbacks::MyCallbackNamespaced;
use interoptopus::surrogates::CorrectSurrogate;
use interoptopus::surrogates::Surrogate;

#[test]
fn arrays() {
    let a = array_2();
    assert_eq!(array_1(a), 1);
    let mut b = Array { data: [9; 16] };
    array_3(&mut b);
    assert_eq!(b.data[0], 42);
    assert_eq!(b.data[1], 9);
}

#[test]
fn char_arrays() {
    let pair = char_array_1();
    assert_eq!(char_array_3(&pair), 72);
    let back = char_array_2(pair);
    assert_eq!(back.text.data[12], 33);
}

#[test]
fn plain_structs() {
    assert_eq!(struct1(Tupled(21)).0, 42);
    assert!(struct3(BoolField { val: true }));
    assert!(!struct3(BoolField { val: false }));
}

fn double_it(x: u32) -> u32 {
    x + x
}

fn take_address(_ptr: usize) {}

fn sum(x: i32, y: i32) -> i32 {
    x + y
}

fn always_fine(_x: i32, _y: i32) -> FFIError {
    FFIError::Success
}

fn note_pair(_x: i32, _y: i32) {}

fn idle() {}

#[test]
fn callback_patterns() {
    assert_eq!(pattern_callback_1(MyCallback::new(double_it), 4), 8);
    let cb = pattern_callback_2(MyCallbackVoid::new(take_address));
    cb.call(0);
    assert_eq!(pattern_callback_4(MyCallbackNamespaced::new(double_it), 5), 10);
    pattern_callback_5(idle).call();
    assert_eq!(pattern_callback_6(sum).call(2, 3), 5);

    let mut out: i32 = 0;
    let code = pattern_callback_7(
        SumDelegateReturn::new(always_fine),
        SumDelegateReturn2::new(note_pair),
        3,
        10,
        &mut out,
    );
    assert_eq!(code, FFIError::Success);
    assert_eq!(out, 11);

    assert_eq!(exposed_sum2(2, 3), 5);
}

struct Foreign {
    x: u32,
}

struct LocalForeign {
    _x: u32,
}

impl CorrectSurrogate<Foreign> for LocalForeign {}

#[test]
fn surrogate_carries_foreign_value() {
    let mut s: Surrogate<Foreign, LocalForeign> = Surrogate::new(Foreign { x: 5 });
    assert_eq!(s.as_t().x, 5);
    s.as_t_mut().x = 6;
    assert_eq!(s.into_t().x, 6);
}

#[test]
fn foreign_descriptor_shape() {
    let descriptor = some_foreign_type();
    match descriptor {
        CType::Composite(c) => {
            assert_eq!(c.name(), "SomeForeignType");
            assert_eq!(c.fields().len(), 1);
        }
        _ => unreachable!(),
    }
}
