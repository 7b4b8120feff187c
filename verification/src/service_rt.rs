//! The runtime contract of generated service bindings: construction writes
//! a non-sentinel handle exactly on success, destruction resets the handle
//! to the sentinel, and a reset handle makes repeated destruction
//! structurally unreachable.

use vstd::prelude::*;
use crate::pattern::Success;

verus! {

/// The sentinel ("null") handle value.
pub const SENTINEL_HANDLE: u64 = 0;

/// Holds the live instances of one service; a handle indexes this store.
pub struct ServiceRegistry<T> {
    /// One slot per ever-constructed instance; a destroyed instance leaves
    /// `None` behind.
    pub slots: Vec<Option<T>>,
}

/// Whether `handle` names a live instance of the registry.
pub open spec fn valid_handle<T>(slots: Seq<Option<T>>, handle: u64) -> bool {
    &&& 1 <= handle <= slots.len()
    &&& slots[handle - 1] is Some
}

/// What the native constructor call produced, as seen by the generated
/// glue: a result, or a panic caught at the boundary.
pub enum CtorOutcome<T, E> {
    /// The constructor ran: `Ok` carries the instance, `Err` the error-enum
    /// value the library's error maps to.
    Completed(Result<T, E>),
    /// The constructor panicked; the glue reports the reserved panic code.
    Panicked,
}

impl<T> ServiceRegistry<T> {
    /// An empty registry.
    pub fn new() -> (r: ServiceRegistry<T>)
        ensures
            r.slots@.len() == 0,
    {
        ServiceRegistry { slots: Vec::new() }
    }

    /// The generated constructor glue. It writes a non-sentinel handle
    /// into the out-parameter if and only if it returns the success code;
    /// any other return leaves the out-parameter at the sentinel.
    pub fn create<E: Success>(&mut self, out: &mut u64, outcome: CtorOutcome<T, E>) -> (code: E)
        requires
            old(self).slots@.len() < u64::MAX - 1,
            outcome matches CtorOutcome::Completed(Err(e)) ==> e != E::spec_success(),
        ensures
            (code == E::spec_success()) <==> (*final(out) != SENTINEL_HANDLE),
            match outcome {
                CtorOutcome::Completed(res) => match res {
                    Ok(t) => {
                        &&& code == E::spec_success()
                        &&& final(self).slots@ == old(self).slots@.push(Some(t))
                        &&& *final(out) == old(self).slots@.len() + 1
                        &&& valid_handle(final(self).slots@, *final(out))
                    },
                    Err(e) => {
                        &&& code == e
                        &&& *final(out) == SENTINEL_HANDLE
                        &&& final(self).slots@ == old(self).slots@
                    },
                },
                CtorOutcome::Panicked => {
                    &&& code == E::spec_panic()
                    &&& *final(out) == SENTINEL_HANDLE
                    &&& final(self).slots@ == old(self).slots@
                },
            },
    {
        proof {
            E::reserved_codes_distinct();
        }
        match outcome {
            CtorOutcome::Completed(res) => match res {
                Ok(t) => {
                    self.slots.push(Some(t));
                    *out = self.slots.len() as u64;
                    E::success_value()
                },
                Err(e) => {
                    *out = SENTINEL_HANDLE;
                    e
                },
            },
            CtorOutcome::Panicked => {
                *out = SENTINEL_HANDLE;
                E::panic_value()
            },
        }
    }

    /// The generated destructor glue. A sentinel handle yields the null
    /// code and touches nothing. A live handle has its instance dropped
    /// and the handle slot reset to the sentinel, so a repeated destroy of
    /// the same handle variable takes the sentinel path by construction.
    pub fn destroy<E: Success>(&mut self, handle: &mut u64) -> (code: E)
        requires
            *old(handle) == SENTINEL_HANDLE || valid_handle(
                old(self).slots@,
                *old(handle),
            ),
        ensures
            *final(handle) == SENTINEL_HANDLE,
            *old(handle) == SENTINEL_HANDLE ==> code == E::spec_null() && final(self).slots@
                == old(self).slots@,
            *old(handle) != SENTINEL_HANDLE ==> code == E::spec_success() && final(self).slots@
                == old(self).slots@.update(*old(handle) - 1, None) && !valid_handle(
                final(self).slots@,
                *old(handle),
            ),
    {
        if *handle == SENTINEL_HANDLE {
            return E::null_value();
        }
        let n: usize = self.slots.len();
        proof {
            assert(valid_handle(self.slots@, *handle));
            assert(*handle - 1 < n);
        }
        let idx: usize = (*handle - 1) as usize;
        proof {
            assert(idx as int == *old(handle) - 1);
        }
        self.slots.set(idx, None);
        *handle = SENTINEL_HANDLE;
        E::success_value()
    }

    /// Borrows the live instance a handle names, as the generated method
    /// glue does before dispatching a method.
    pub fn instance(&self, handle: u64) -> (r: &T)
        requires
            valid_handle(self.slots@, handle),
        ensures
            self.slots@[handle - 1] == Some(*r),
    {
        let n: usize = self.slots.len();
        proof {
            assert(handle - 1 < n);
        }
        let idx: usize = (handle - 1) as usize;
        assert(self.slots@[idx as int] is Some);
        match &self.slots[idx] {
            Some(t) => t,
            None => unreached(),
        }
    }

    /// Mutably borrows the live instance a handle names, for methods that
    /// take the receiver mutably. The handle's slot stays live.
    pub fn instance_mut(&mut self, handle: u64) -> (r: &mut T)
        requires
            valid_handle(old(self).slots@, handle),
        ensures
            old(self).slots@[handle - 1] == Some(*r),
            final(self).slots@ == old(self).slots@.update(handle - 1, Some(*final(r))),
            valid_handle(final(self).slots@, handle),
    {
        let n: usize = self.slots.len();
        proof {
            assert(handle - 1 < n);
        }
        let idx: usize = (handle - 1) as usize;
        proof {
            assert(idx as int == handle - 1);
        }
        let slot = &mut self.slots[idx];
        match slot {
            Some(t) => t,
            None => unreached(),
        }
    }
}

/// After a successful destroy the handle variable holds the sentinel, and
/// destroying a sentinel handle is a null-code no-op: generated code can
/// never destroy the same instance twice through its handle variable.
pub proof fn lemma_double_destroy_unreachable<T>(slots: Seq<Option<T>>, handle: u64)
    requires
        valid_handle(slots, handle),
    ensures
        !valid_handle(slots.update(handle - 1, None::<T>), handle),
{
}

} // verus!
