//! Example services: plain constructors, ignored methods, string handling,
//! an async service, and the generated-glue entry points over the handle
//! registry.

use vstd::prelude::*;
use std::sync::Arc;
use crate::reference::success_enum::FFIError;
use crate::service_rt::CtorOutcome;
use crate::service_rt::SENTINEL_HANDLE;
use crate::service_rt::ServiceRegistry;
use crate::service_rt::valid_handle;
use crate::slice::FFISlice;
use crate::slice::FFISliceMut;
use crate::strings::CStrPointer;
use crate::strings::Utf8String;

verus! {

/// The error the example services' constructors report.
#[derive(Clone, Copy, PartialEq, Eq, Structural, Debug)]
pub enum Error {
    /// Something went wrong.
    Bad,
}

/// A service with nothing but a constructor.
pub struct ServiceBasic {

}

impl ServiceBasic {
    /// Constructs the service; never fails.
    pub fn new() -> (r: Result<ServiceBasic, Error>)
        ensures
            r is Ok,
    {
        Ok(ServiceBasic {  })
    }
}

/// A service whose extra methods are not exported.
pub struct ServiceIgnoringMethods {

}

impl ServiceIgnoringMethods {
    /// Constructs the service; never fails.
    pub fn new() -> (r: Result<ServiceIgnoringMethods, Error>)
        ensures
            r is Ok,
    {
        Ok(ServiceIgnoringMethods {  })
    }

    /// A method deliberately left out of the exported interface.
    pub fn this_is_ignored(&mut self) -> (r: Result<(), Error>)
        ensures
            r is Ok,
    {
        Ok(())
    }

    /// No bindings are generated for generic methods either.
    pub fn not_exposed<T>(&mut self, _value: T) -> (r: Result<(), Error>)
        ensures
            r is Ok,
    {
        Ok(())
    }
}

/// A callback taking ownership of a transferred string.
pub struct StringCallback<F> where F: Fn(Utf8String) -> () {
    /// The function invoked by `call`.
    pub f: F,
}

impl<F> StringCallback<F> where F: Fn(Utf8String) -> () {
    /// Wraps the function to call back into.
    pub fn new(f: F) -> (r: Self)
        ensures
            r.f == f,
    {
        Self { f }
    }

    /// Invokes the callback, transferring the string.
    pub fn call(&self, s: Utf8String)
        requires
            call_requires(self.f, (s,)),
        ensures
            call_ensures(self.f, (s,), ()),
    {
        (self.f)(s);
    }
}

/// A service exercising the string patterns.
pub struct ServiceStrings {

}

impl ServiceStrings {
    /// Constructs the service; never fails.
    pub fn new() -> (r: Result<ServiceStrings, Error>)
        ensures
            r is Ok,
    {
        Ok(ServiceStrings {  })
    }

    /// Accepts a borrowed C string and does nothing with it.
    pub fn pass_cstr(&mut self, _s: CStrPointer) {
    }

    /// Hands out a pointer to an empty string.
    pub fn return_cstr(&mut self) -> (r: CStrPointer)
        ensures
            r@ == seq![0u8],
            r.wf(),
    {
        CStrPointer::empty()
    }

    /// Clones the transferred string and hands the copy to the callback;
    /// the callback consumes its copy, the original is consumed here.
    pub fn callback_string<F: Fn(Utf8String) -> ()>(&self, s: Utf8String, cb: &StringCallback<F>)
        requires
            forall|v: Utf8String| v@ == s@ ==> call_requires(cb.f, (v,)),
        ensures
            exists|v: Utf8String| v@ == s@ && call_ensures(cb.f, (v,), ()),
    {
        let copy = s.clone();
        cb.call(copy);
    }
}

/// A service that completes calls asynchronously.
pub struct ServiceAsync {
    /// The runtime slot; the example service needs none.
    pub runtime: (),
}

impl ServiceAsync {
    /// Constructs the service behind a shared handle; never fails.
    pub fn new() -> (r: Result<Arc<ServiceAsync>, Error>)
        ensures
            r is Ok,
    {
        Ok(Arc::new(ServiceAsync { runtime: () }))
    }
}

/// The error the generated-service example maps into the error enum.
#[derive(Clone, Copy, PartialEq, Eq, Structural, Debug)]
pub enum SimpleError {
    /// Something went wrong.
    Bad,
}

/// The service behind the generated glue.
pub struct SimpleService {
    /// Its single stored value.
    pub some_value: u32,
}

impl SimpleService {
    /// The constructor; stores the value and never fails.
    pub fn new_with(some_value: u32) -> (r: Result<SimpleService, SimpleError>)
        ensures
            r matches Ok(s) && s.some_value == some_value,
    {
        Ok(SimpleService { some_value })
    }

    /// A result-returning method; always succeeds.
    pub fn method_result(&self, _x: u32) -> (r: Result<(), SimpleError>)
        ensures
            r is Ok,
    {
        Ok(())
    }

    /// A direct method: the value passes through unchanged.
    pub fn method_value(&self, x: u32) -> (r: u32)
        ensures
            r == x,
    {
        x
    }

    /// A direct method returning nothing.
    pub fn method_void(&self) {
    }

    /// Reads the first byte of the slice, zero when it is empty.
    pub fn method_mut_self(&mut self, slice: FFISlice<u8>) -> (r: u8)
        ensures
            *final(self) == *old(self),
            slice@.len() > 0 ==> r == slice@[0],
            slice@.len() == 0 ==> r == 0,
    {
        match slice.as_slice() {
            Some(s) => {
                if s.len() > 0 {
                    s[0]
                } else {
                    0
                }
            },
            None => 0,
        }
    }

    /// Takes a slice of flags and does nothing with it.
    pub fn method_mut_self_void(&mut self, _slice: FFISlice<bool>)
        ensures
            *final(self) == *old(self),
    {
    }

    /// Reads through the first reference; the second stays untouched.
    pub fn method_mut_self_ref(&mut self, x: &u8, y: &mut u8) -> (r: u8)
        ensures
            *final(self) == *old(self),
            *final(y) == *old(y),
            r == x,
    {
        *x
    }

    /// Reads through the first reference, ignoring the slice.
    pub fn method_mut_self_ref_slice(&mut self, x: &u8, y: &mut u8, _slice: FFISlice<u8>) -> (r:
        u8)
        ensures
            *final(self) == *old(self),
            *final(y) == *old(y),
            r == x,
    {
        *x
    }

    /// Reads through the first reference, ignoring both slices.
    pub fn method_mut_self_ref_slice_limited<'a, 'b>(
        &mut self,
        x: &u8,
        y: &mut u8,
        _slice: FFISlice<'a, u8>,
        _slice2: FFISlice<'b, u8>,
    ) -> (r: u8)
        ensures
            *final(self) == *old(self),
            *final(y) == *old(y),
            r == x,
    {
        *x
    }

    /// A method reporting through the error enum; always succeeds.
    pub fn method_mut_self_ffi_error(&mut self, _slice: FFISliceMut<u8>) -> (r: FFIError)
        ensures
            *final(self) == *old(self),
            r == FFIError::Success,
    {
        FFIError::Success
    }
}

/// An extra exposed function taking the service by reference.
pub fn simple_service_ext_util(_ptr: &SimpleService) {
}

/// The error-enum value a constructor error maps to.
pub open spec fn simple_error_code(e: SimpleError) -> FFIError {
    FFIError::Fail
}

/// The generated constructor glue: writes a live handle and returns the
/// success code if and only if construction succeeded; any other return
/// leaves the sentinel handle.
pub fn simple_service_create(
    registry: &mut ServiceRegistry<SimpleService>,
    context: &mut u64,
    some_value: u32,
) -> (r: FFIError)
    requires
        old(registry).slots@.len() < u64::MAX - 1,
    ensures
        r == FFIError::Success,
        *final(context) != SENTINEL_HANDLE,
        valid_handle(final(registry).slots@, *final(context)),
        final(registry).slots@ == old(registry).slots@.push(
            Some(SimpleService { some_value }),
        ),
        final(registry).slots@[*final(context) - 1] == Some(SimpleService { some_value }),
    {
    match SimpleService::new_with(some_value) {
        Ok(s) => registry.create(context, CtorOutcome::Completed(Ok(s))),
        Err(_) => registry.create(
            context,
            CtorOutcome::Completed(Err(FFIError::Fail)),
        ),
    }
}

/// The generated destructor glue: destroys the live instance and resets
/// the handle to the sentinel; a sentinel handle is a null-code no-op, so
/// destroying twice through the same handle variable cannot reach a live
/// slot.
pub fn simple_service_destroy(
    registry: &mut ServiceRegistry<SimpleService>,
    context: &mut u64,
) -> (r: FFIError)
    requires
        *old(context) == SENTINEL_HANDLE || valid_handle(old(registry).slots@, *old(context)),
    ensures
        *final(context) == SENTINEL_HANDLE,
        *old(context) == SENTINEL_HANDLE ==> r == FFIError::Null && final(registry).slots@ == old(
            registry,
        ).slots@,
        *old(context) != SENTINEL_HANDLE ==> r == FFIError::Success && final(registry).slots@
            == old(registry).slots@.update(*old(context) - 1, None) && !valid_handle(
            final(registry).slots@,
            *old(context),
        ),
{
    registry.destroy(context)
}

/// The generated method glue for the direct value method.
pub fn simple_service_value(
    registry: &ServiceRegistry<SimpleService>,
    context: u64,
    x: u32,
) -> (r: u32)
    requires
        valid_handle(registry.slots@, context),
    ensures
        r == x,
{
    let instance = registry.instance(context);
    instance.method_value(x)
}

/// The generated getter glue reading the stored value.
pub fn simple_service_some_value(
    registry: &ServiceRegistry<SimpleService>,
    context: u64,
) -> (r: u32)
    requires
        valid_handle(registry.slots@, context),
    ensures
        registry.slots@[context - 1] matches Some(s) && s.some_value == r,
{
    let instance = registry.instance(context);
    instance.some_value
}

} // verus!
