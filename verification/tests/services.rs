//! Tests of the service runtime contract: handles, construction,
//! destruction.

use interoptopus::reference::services::simple_service_create;
use interoptopus::reference::services::simple_service_destroy;
use interoptopus::reference::services::simple_service_some_value;
use interoptopus::reference::services::simple_service_value;
use interoptopus::reference::services::SimpleService;
use interoptopus::reference::services::ServiceBasic;
use interoptopus::reference::services::ServiceIgnoringMethods;
use interoptopus::reference::services::ServiceStrings;
use interoptopus::reference::success_enum::FFIError;
use interoptopus::service_rt::CtorOutcome;
use interoptopus::service_rt::ServiceRegistry;
use interoptopus::service_rt::SENTINEL_HANDLE;
use interoptopus::slice::FFISlice;

#[test]
fn constructor_success_writes_live_handle() {
    let mut registry: ServiceRegistry<SimpleService> = ServiceRegistry::new();
    let mut handle: u64 = SENTINEL_HANDLE;
    let code = simple_service_create(&mut registry, &mut handle, 7);
    assert_eq!(code, FFIError::Success);
    assert_ne!(handle, SENTINEL_HANDLE);
}

#[test]
fn constructor_failure_leaves_sentinel() {
    let mut registry: ServiceRegistry<SimpleService> = ServiceRegistry::new();
    let mut handle: u64 = SENTINEL_HANDLE;
    let code: FFIError = registry.create(
        &mut handle,
        CtorOutcome::Completed(Err(FFIError::Fail)),
    );
    assert_eq!(code, FFIError::Fail);
    assert_eq!(handle, SENTINEL_HANDLE);
}

#[test]
fn constructor_panic_reports_panic_code() {
    let mut registry: ServiceRegistry<SimpleService> = ServiceRegistry::new();
    let mut handle: u64 = SENTINEL_HANDLE;
    let code: FFIError = registry.create(&mut handle, CtorOutcome::Panicked);
    assert_eq!(code, FFIError::Panic);
    assert_eq!(handle, SENTINEL_HANDLE);
}

#[test]
fn end_to_end_service_lifecycle() {
    let mut registry: ServiceRegistry<SimpleService> = ServiceRegistry::new();
    let mut handle: u64 = SENTINEL_HANDLE;

    let code = simple_service_create(&mut registry, &mut handle, 7);
    assert_eq!(code, FFIError::Success);
    assert_ne!(handle, SENTINEL_HANDLE);
    assert_eq!(simple_service_some_value(&registry, handle), 7);
    assert_eq!(simple_service_value(&registry, handle, 9), 9);

    let code = simple_service_destroy(&mut registry, &mut handle);
    assert_eq!(code, FFIError::Success);
    assert_eq!(handle, SENTINEL_HANDLE);

    // The handle variable now holds the sentinel, so a second destroy can
    // only take the null path: the destroyed slot is unreachable.
    let code = simple_service_destroy(&mut registry, &mut handle);
    assert_eq!(code, FFIError::Null);
}

#[test]
fn simple_service_methods() {
    let mut s = SimpleService::new_with(3).unwrap();
    assert_eq!(s.some_value, 3);
    assert!(s.method_result(1).is_ok());
    assert_eq!(s.method_value(12), 12);
    s.method_void();

    let bytes = [5u8, 6, 7];
    let slice = FFISlice::from_slice(&bytes);
    assert_eq!(s.method_mut_self(slice), 5);

    let empty: [u8; 0] = [];
    let slice = FFISlice::from_slice(&empty);
    assert_eq!(s.method_mut_self(slice), 0);

    let x = 9u8;
    let mut y = 1u8;
    assert_eq!(s.method_mut_self_ref(&x, &mut y), 9);
}

#[test]
fn other_services_construct() {
    assert!(ServiceBasic::new().is_ok());
    let mut ignoring = ServiceIgnoringMethods::new().unwrap();
    assert!(ignoring.this_is_ignored().is_ok());
    assert!(ignoring.not_exposed(5u8).is_ok());

    let mut strings = ServiceStrings::new().unwrap();
    let returned = strings.return_cstr();
    assert_eq!(returned.as_str().unwrap(), "");
}
