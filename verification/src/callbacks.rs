//! Callback values: function-like values the native side can invoke, and
//! the named callback types of the example interface.

use vstd::prelude::*;
use crate::lang::CType;
use crate::lang::CTypeV;
use crate::lang::FnPointerType;
use crate::lang::FnPointerV;
use crate::lang::FunctionSignature;
use crate::lang::NamedCallback;
use crate::lang::NamedCallbackV;
use crate::lang::Parameter;
use crate::lang::ParameterV;
use crate::lang::SignatureV;
use crate::lang::TypePattern;
use crate::lang::TypePatternV;
use crate::lang::TYPE_U32;

verus! {

/// A callback of one argument.
#[verifier::reject_recursive_types(X0)]
#[verifier::reject_recursive_types(R)]
pub struct CallbackXY<X0, R, F> where F: Fn(X0) -> R {
    /// The function invoked by [`CallbackXY::call`].
    pub ptr: F,
    /// Pins the argument and result types.
    pub marker: core::marker::PhantomData<(X0, R)>,
}

impl<X0, R, F> CallbackXY<X0, R, F> where F: Fn(X0) -> R {
    /// Wraps the function to call back into.
    pub fn new(ptr: F) -> (r: Self)
        ensures
            r.ptr == ptr,
    {
        Self { ptr, marker: core::marker::PhantomData }
    }

    /// Invokes the callback.
    pub fn call(&self, x0: X0) -> (r: R)
        requires
            call_requires(self.ptr, (x0,)),
        ensures
            call_ensures(self.ptr, (x0,), r),
    {
        (self.ptr)(x0)
    }
}

/// A callback of two arguments.
#[verifier::reject_recursive_types(X0)]
#[verifier::reject_recursive_types(X1)]
#[verifier::reject_recursive_types(R)]
pub struct CallbackXXY<X0, X1, R, F> where F: Fn(X0, X1) -> R {
    /// The function invoked by [`CallbackXXY::call`].
    pub ptr: F,
    /// Pins the argument and result types.
    pub marker: core::marker::PhantomData<(X0, X1, R)>,
}

impl<X0, X1, R, F> CallbackXXY<X0, X1, R, F> where F: Fn(X0, X1) -> R {
    /// Wraps the function to call back into.
    pub fn new(ptr: F) -> (r: Self)
        ensures
            r.ptr == ptr,
    {
        Self { ptr, marker: core::marker::PhantomData }
    }

    /// Invokes the callback.
    pub fn call(&self, x0: X0, x1: X1) -> (r: R)
        requires
            call_requires(self.ptr, (x0, x1)),
        ensures
            call_ensures(self.ptr, (x0, x1), r),
    {
        (self.ptr)(x0, x1)
    }
}

/// The type description shared by the `u32 -> u32` named callbacks below.
pub open spec fn u32_to_u32_callback_info(name: Seq<char>, namespace: Seq<char>) -> CTypeV {
    CTypeV::Pattern(
        TypePatternV::NamedCallback(
            NamedCallbackV {
                name: name,
                namespace: namespace,
                fnpointer: FnPointerV {
                    signature: SignatureV {
                        params: seq![ParameterV { name: "value"@, ty: TYPE_U32 }],
                        rval: TYPE_U32,
                    },
                },
            },
        ),
    )
}

/// Builds the type description of a `u32 -> u32` named callback.
fn make_u32_to_u32_info(name: &str, namespace: &str) -> (r: CType)
    ensures
        r@ == u32_to_u32_callback_info(name@, namespace@),
{
    let mut params: Vec<Parameter> = Vec::new();
    params.push(Parameter::new(String::from_str("value"), TYPE_U32));
    proof {
        assert(crate::lang::params_view(params@) =~= seq![
            ParameterV { name: "value"@, ty: TYPE_U32 },
        ]);
    }
    CType::Pattern(
        TypePattern::NamedCallback(
            NamedCallback::with_namespace(
                String::from_str(name),
                String::from_str(namespace),
                FnPointerType::new(FunctionSignature::new(params, TYPE_U32)),
            ),
        ),
    )
}

/// A named `u32 -> u32` callback in the default namespace.
pub struct MyCallback<F> where F: Fn(u32) -> u32 {
    /// The function invoked by `call`.
    pub f: F,
}

impl<F> MyCallback<F> where F: Fn(u32) -> u32 {
    /// Wraps the function to call back into.
    pub fn new(f: F) -> (r: Self)
        ensures
            r.f == f,
    {
        Self { f }
    }

    /// Invokes the callback.
    pub fn call(&self, value: u32) -> (r: u32)
        requires
            call_requires(self.f, (value,)),
        ensures
            call_ensures(self.f, (value,), r),
    {
        (self.f)(value)
    }

    /// The callback's type description.
    pub fn type_info() -> (r: CType)
        ensures
            r@ == u32_to_u32_callback_info("MyCallback"@, ""@),
    {
        make_u32_to_u32_info("MyCallback", "")
    }
}

/// A named `u32 -> u32` callback declared in the `common` namespace.
pub struct MyCallbackNamespaced<F> where F: Fn(u32) -> u32 {
    /// The function invoked by `call`.
    pub f: F,
}

impl<F> MyCallbackNamespaced<F> where F: Fn(u32) -> u32 {
    /// Wraps the function to call back into.
    pub fn new(f: F) -> (r: Self)
        ensures
            r.f == f,
    {
        Self { f }
    }

    /// Invokes the callback.
    pub fn call(&self, value: u32) -> (r: u32)
        requires
            call_requires(self.f, (value,)),
        ensures
            call_ensures(self.f, (value,), r),
    {
        (self.f)(value)
    }

    /// The callback's type description.
    pub fn type_info() -> (r: CType)
        ensures
            r@ == u32_to_u32_callback_info("MyCallbackNamespaced"@, "common"@),
    {
        make_u32_to_u32_info("MyCallbackNamespaced", "common")
    }
}

/// A named callback taking nothing and returning nothing.
pub struct SumDelegate1<F> where F: Fn() -> () {
    /// The function invoked by `call`.
    pub f: F,
}

impl<F> SumDelegate1<F> where F: Fn() -> () {
    /// Wraps the function to call back into.
    pub fn new(f: F) -> (r: Self)
        ensures
            r.f == f,
    {
        Self { f }
    }

    /// Invokes the callback.
    pub fn call(&self)
        requires
            call_requires(self.f, ()),
        ensures
            call_ensures(self.f, (), ()),
    {
        (self.f)();
    }
}

/// A named `(i32, i32) -> i32` callback.
pub struct SumDelegate2<F> where F: Fn(i32, i32) -> i32 {
    /// The function invoked by `call`.
    pub f: F,
}

impl<F> SumDelegate2<F> where F: Fn(i32, i32) -> i32 {
    /// Wraps the function to call back into.
    pub fn new(f: F) -> (r: Self)
        ensures
            r.f == f,
    {
        Self { f }
    }

    /// Invokes the callback.
    pub fn call(&self, x: i32, y: i32) -> (r: i32)
        requires
            call_requires(self.f, (x, y)),
        ensures
            call_ensures(self.f, (x, y), r),
    {
        (self.f)(x, y)
    }
}

} // verus!
