//! Example functions exercising the callback patterns.

use vstd::prelude::*;
use crate::callbacks::MyCallback;
use crate::callbacks::MyCallbackNamespaced;
use crate::callbacks::SumDelegate1;
use crate::callbacks::SumDelegate2;
use crate::reference::success_enum::FFIError;

verus! {

/// A named callback carrying an opaque context address.
pub struct MyCallbackVoid<F> where F: Fn(usize) -> () {
    /// The function invoked by `call`.
    pub f: F,
}

impl<F> MyCallbackVoid<F> where F: Fn(usize) -> () {
    /// Wraps the function to call back into.
    pub fn new(f: F) -> (r: Self)
        ensures
            r.f == f,
    {
        Self { f }
    }

    /// Invokes the callback with an address.
    pub fn call(&self, ptr: usize)
        requires
            call_requires(self.f, (ptr,)),
        ensures
            call_ensures(self.f, (ptr,), ()),
    {
        (self.f)(ptr);
    }
}

/// A named `(i32, i32)` callback returning the error enum.
pub struct SumDelegateReturn<F> where F: Fn(i32, i32) -> FFIError {
    /// The function invoked by `call`.
    pub f: F,
}

impl<F> SumDelegateReturn<F> where F: Fn(i32, i32) -> FFIError {
    /// Wraps the function to call back into.
    pub fn new(f: F) -> (r: Self)
        ensures
            r.f == f,
    {
        Self { f }
    }

    /// Invokes the callback.
    pub fn call(&self, x: i32, y: i32) -> (r: FFIError)
        requires
            call_requires(self.f, (x, y)),
        ensures
            call_ensures(self.f, (x, y), r),
    {
        (self.f)(x, y)
    }
}

/// A named `(i32, i32)` callback returning nothing.
pub struct SumDelegateReturn2<F> where F: Fn(i32, i32) -> () {
    /// The function invoked by `call`.
    pub f: F,
}

impl<F> SumDelegateReturn2<F> where F: Fn(i32, i32) -> () {
    /// Wraps the function to call back into.
    pub fn new(f: F) -> (r: Self)
        ensures
            r.f == f,
    {
        Self { f }
    }

    /// Invokes the callback.
    pub fn call(&self, x: i32, y: i32)
        requires
            call_requires(self.f, (x, y)),
        ensures
            call_ensures(self.f, (x, y), ()),
    {
        (self.f)(x, y);
    }
}

/// Invokes a callback with the given value and passes its result through.
pub fn pattern_callback_1<F: Fn(u32) -> u32>(callback: MyCallback<F>, x: u32) -> (r: u32)
    requires
        call_requires(callback.f, (x,)),
    ensures
        call_ensures(callback.f, (x,), r),
{
    callback.call(x)
}

/// Hands a callback back unchanged.
pub fn pattern_callback_2<F: Fn(usize) -> ()>(callback: MyCallbackVoid<F>) -> (r: MyCallbackVoid<
    F,
>)
    ensures
        r == callback,
{
    callback
}

/// Invokes a namespaced callback with the given value.
pub fn pattern_callback_4<F: Fn(u32) -> u32>(callback: MyCallbackNamespaced<F>, x: u32) -> (r:
    u32)
    requires
        call_requires(callback.f, (x,)),
    ensures
        call_ensures(callback.f, (x,), r),
{
    callback.call(x)
}

/// Wraps a plain function into the no-argument delegate.
pub fn pattern_callback_5<F: Fn() -> ()>(f: F) -> (r: SumDelegate1<F>)
    ensures
        r.f == f,
{
    SumDelegate1::new(f)
}

/// Wraps a plain function into the summing delegate.
pub fn pattern_callback_6<F: Fn(i32, i32) -> i32>(f: F) -> (r: SumDelegate2<F>)
    ensures
        r.f == f,
{
    SumDelegate2::new(f)
}

/// Calls both callbacks, then reports the final out-value. If the first
/// callback fails inside the host language, its trampoline signals that
/// through the error enum instead of unwinding; here both calls complete.
pub fn pattern_callback_7<F1: Fn(i32, i32) -> FFIError, F2: Fn(i32, i32) -> ()>(
    c1: SumDelegateReturn<F1>,
    c2: SumDelegateReturn2<F2>,
    x: i32,
    i: i32,
    o: &mut i32,
) -> (r: FFIError)
    requires
        i < i32::MAX,
        i > i32::MIN,
        call_requires(c1.f, (x, x)),
        call_requires(c2.f, (x, x)),
    ensures
        r == FFIError::Success,
        *final(o) == i + 1,
        exists|r1: FFIError| call_ensures(c1.f, (x, x), r1),
{
    *o = i - 1;
    let _code = c1.call(x, x);
    c2.call(x, x);
    *o = i + 1;
    FFIError::Success
}

/// A plain no-op the delegate examples wrap.
pub fn exposed_sum1() {
}

/// Adds two values.
pub fn exposed_sum2(x: i32, y: i32) -> (r: i32)
    requires
        i32::MIN <= x + y <= i32::MAX,
    ensures
        r == x + y,
{
    x + y
}

} // verus!
