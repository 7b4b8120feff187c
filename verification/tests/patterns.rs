//! Tests of the runtime patterns: callbacks, options, strings.

use interoptopus::callbacks::CallbackXY;
use interoptopus::callbacks::MyCallback;
use interoptopus::callbacks::MyCallbackNamespaced;
use interoptopus::option::FFIOption;
use interoptopus::strings::CStrPointer;
use interoptopus::strings::Utf8String;
use interoptopus::Error;

fn double_it(x: u32) -> u32 {
    x + x
}

#[test]
fn callbacks_can_create() {
    let callback = CallbackXY::new(double_it);

    assert_eq!(callback.call(100), 200);
}

#[test]
fn option_can_create() {
    assert!(FFIOption::some(100).is_some());
    assert!(FFIOption::<u8>::none().is_none());
}

#[test]
fn namespaces_assigned_correctly() {
    let ti1 = MyCallback::<fn(u32) -> u32>::type_info();
    let ti2 = MyCallbackNamespaced::<fn(u32) -> u32>::type_info();

    assert_eq!(ti1.namespace(), Some(""));
    assert_eq!(ti2.namespace(), Some("common"));
}

#[test]
fn callbacks_namespaces_assigned_correctly() {
    let ti1 = MyCallback::<fn(u32) -> u32>::type_info();
    let ti2 = MyCallbackNamespaced::<fn(u32) -> u32>::type_info();

    assert_eq!(ti1.namespace(), Some(""));
    assert_eq!(ti2.namespace(), Some("common"));
}

#[test]
fn option_round_trip_some() {
    let encoded = FFIOption::from_option(Some(5u32));
    assert_eq!(encoded.into_option(), Some(5));
}

#[test]
fn option_round_trip_none() {
    let encoded = FFIOption::<u32>::from_option(None);
    assert_eq!(encoded.into_option(), None);
}

#[test]
fn option_codec_idempotent() {
    let first = FFIOption::from_option(Some(9u8));
    let decoded = first.into_option();
    let second = FFIOption::from_option(decoded);
    assert_eq!(second.into_option(), Some(9));
}

#[test]
fn option_unwrap_and_as_ref() {
    let mut o = FFIOption::some(40u32);
    assert_eq!(o.as_ref(), Some(&40));
    if let Some(v) = o.as_mut() {
        *v += 1;
    }
    *o.unwrap_as_mut() += 1;
    assert_eq!(o.unwrap(), 42);
}

#[test]
fn from_slice_with_nul_works() {
    let s = b"hello\0world";
    let ptr_some = CStrPointer::from_slice_with_nul(s.to_vec()).unwrap();

    assert_eq!("hello", ptr_some.as_str().unwrap());
}

#[test]
fn string_from_slice_with_nul_works() {
    let s = b"hello\0world";
    let ptr_some = CStrPointer::from_slice_with_nul(s.to_vec()).unwrap();

    assert_eq!("hello", ptr_some.as_str().unwrap());
}

#[test]
fn from_slice_with_nul_fails_if_not_nul() {
    let s = b"hello world";
    let ptr_some = CStrPointer::from_slice_with_nul(s.to_vec());

    assert!(ptr_some.is_err());
    assert_eq!(ptr_some.err(), Some(Error::NulTerminated));
}

#[test]
fn string_from_slice_with_nul_fails_if_not_nul() {
    let s = b"hello world";
    let ptr_some = CStrPointer::from_slice_with_nul(s.to_vec());

    assert!(ptr_some.is_err());
}

#[test]
fn cstr_null_pointer_read_fails() {
    let null = CStrPointer::null();
    assert_eq!(null.as_str().err(), Some(Error::Null));
}

#[test]
fn cstr_non_ascii_read_fails() {
    let bytes = vec![200u8, 0u8];
    let ptr = CStrPointer::from_slice_with_nul(bytes).unwrap();
    assert_eq!(ptr.as_str().err(), Some(Error::Ascii));
}

#[test]
fn utf8_string_transfers_once() {
    let s = Utf8String::from_string(String::from("payload"));
    assert_eq!(s.as_str(), "payload");
    let back = s.into_string();
    assert_eq!(back, "payload");
}
