//! The asynchronous completion protocol: a correlation-token dispatch that
//! generated bindings maintain, and the trampoline rules for callbacks that
//! fail during native re-entry.
//!
//! A call that completes on another thread delivers its result later by
//! invoking the callback with the correlation token of the originating
//! call. The dispatch state here is the single-threaded model of that
//! token map; the generated bindings guard it with mutual exclusion, so
//! every interleaving of its operations is one of the sequences this model
//! describes. A token is registered by [`AsyncDispatch::issue`] before the
//! native call that could complete it is allowed to run, and removed
//! exactly once, on completion.

use vstd::prelude::*;

verus! {

/// The token map of one async callback: which tokens await completion and
/// what has been delivered to whom.
pub struct AsyncDispatch<T> {
    /// The next correlation token to hand out.
    pub next_token: u64,
    /// Tokens of calls that were issued and have not completed.
    pub pending: Vec<u64>,
    /// The delivery log: each completion, with its token and payload, in
    /// completion order.
    pub delivered: Vec<(u64, T)>,
}

impl<T> AsyncDispatch<T> {
    /// The invariant of the dispatch state: tokens are never reused, no
    /// token is pending twice, and no token is delivered twice or both
    /// pending and delivered.
    pub open spec fn wf(&self) -> bool {
        &&& forall|i: int, j: int|
            0 <= i < j < self.pending@.len() ==> self.pending@[i] != self.pending@[j]
        &&& forall|i: int, j: int|
            0 <= i < j < self.delivered@.len() ==> (#[trigger] self.delivered@[i]).0 != (
            #[trigger] self.delivered@[j]).0
        &&& forall|i: int, j: int|
            0 <= i < self.pending@.len() && 0 <= j < self.delivered@.len()
                ==> #[trigger] self.pending@[i] != (#[trigger] self.delivered@[j]).0
        &&& forall|i: int|
            0 <= i < self.pending@.len() ==> #[trigger] self.pending@[i] < self.next_token
        &&& forall|i: int|
            0 <= i < self.delivered@.len() ==> (#[trigger] self.delivered@[i]).0
                < self.next_token
    }

    /// An empty dispatch: nothing pending, nothing delivered.
    pub fn new() -> (r: AsyncDispatch<T>)
        ensures
            r.wf(),
            r.pending@.len() == 0,
            r.delivered@.len() == 0,
            r.next_token == 0,
    {
        AsyncDispatch { next_token: 0, pending: Vec::new(), delivered: Vec::new() }
    }

    /// Registers a fresh correlation token and returns it. The token is in
    /// the pending map when this returns, so the native call that could
    /// complete it starts only after the registration is visible.
    pub fn issue(&mut self) -> (token: u64)
        requires
            old(self).wf(),
            old(self).next_token < u64::MAX,
        ensures
            final(self).wf(),
            token == old(self).next_token,
            final(self).next_token == old(self).next_token + 1,
            final(self).pending@ == old(self).pending@.push(token),
            final(self).pending@.contains(token),
            final(self).delivered@ == old(self).delivered@,
    {
        let token = self.next_token;
        self.pending.push(token);
        self.next_token = self.next_token + 1;
        proof {
            assert(self.pending@[self.pending@.len() - 1] == token);
        }
        token
    }

    /// Completes the call with the given token: the token is removed from
    /// the pending map — exactly once over its lifetime — and the payload
    /// is delivered to the continuation the token stands for. A token that
    /// is not pending (never issued, or already completed) delivers
    /// nothing and changes nothing.
    pub fn complete(&mut self, token: u64, payload: T) -> (accepted: bool)
        requires
            old(self).wf(),
        ensures
            final(self).wf(),
            accepted == old(self).pending@.contains(token),
            final(self).next_token == old(self).next_token,
            accepted ==> final(self).delivered@ == old(self).delivered@.push((token, payload))
                && !final(self).pending@.contains(token),
            !accepted ==> *final(self) == *old(self),
    {
        let n: usize = self.pending.len();
        let mut i: usize = 0;
        while i < n
            invariant
                old(self).wf(),
                *self == *old(self),
                n == self.pending@.len(),
                i <= n,
                forall|k: int| 0 <= k < i ==> self.pending@[k] != token,
            decreases n - i,
        {
            if self.pending[i] == token {
                assert(self.pending@.contains(token));
                let ghost old_pending = self.pending@;
                self.pending.remove(i);
                self.delivered.push((token, payload));
                proof {
                    let removed = old_pending.remove(i as int);
                    old_pending.remove_ensures(i as int);
                    assert(self.pending@ == removed);
                    assert forall|k: int|
                        0 <= k < self.pending@.len() implies #[trigger] self.pending@[k]
                        != token by {
                        if k < i {
                            assert(removed[k] == old_pending[k]);
                        } else {
                            assert(removed[k] == old_pending[k + 1]);
                        }
                    }
                    assert(!self.pending@.contains(token));
                    assert(self.delivered@[self.delivered@.len() - 1] == (token, payload));
                    assert forall|a: int, b: int|
                        0 <= a < b < self.delivered@.len() implies (
                    #[trigger] self.delivered@[a]).0 != (#[trigger] self.delivered@[b]).0 by {
                        if b < self.delivered@.len() - 1 {
                        } else {
                            assert(self.delivered@[b].0 == token);
                            assert(self.delivered@[a] == old(self).delivered@[a]);
                            assert(old_pending[i as int] == token);
                        }
                    }
                    assert forall|a: int, b: int|
                        0 <= a < self.pending@.len() && 0 <= b < self.delivered@.len() implies
                        #[trigger] self.pending@[a] != (#[trigger] self.delivered@[b]).0 by {
                        if a < i {
                            assert(self.pending@[a] == old_pending[a]);
                        } else {
                            assert(self.pending@[a] == old_pending[a + 1]);
                        }
                    }
                }
                return true;
            }
            i = i + 1;
        }
        assert(!self.pending@.contains(token));
        false
    }
}

/// At-most-once, no-cross delivery: in every reachable dispatch state each
/// token appears at most once in the delivery log, and a delivered token
/// is no longer pending, so it can never be delivered again. Together with
/// [`AsyncDispatch::complete`], which logs exactly the payload handed in
/// for exactly the named token, every issued call receives its own result
/// at most once, and exactly once if its completion arrives.
pub proof fn lemma_delivery_exactly_once<T>(d: &AsyncDispatch<T>)
    requires
        d.wf(),
    ensures
        forall|i: int, j: int|
            0 <= i < j < d.delivered@.len() ==> (#[trigger] d.delivered@[i]).0 != (
            #[trigger] d.delivered@[j]).0,
        forall|j: int|
            0 <= j < d.delivered@.len() ==> !d.pending@.contains(
                (#[trigger] d.delivered@[j]).0,
            ),
{
    assert forall|j: int|
        0 <= j < d.delivered@.len() implies !d.pending@.contains(
        (#[trigger] d.delivered@[j]).0,
    ) by {
        if d.pending@.contains(d.delivered@[j].0) {
            let a = choose|a: int|
                0 <= a < d.pending@.len() && d.pending@[a] == d.delivered@[j].0;
        }
    }
}

/// How a result-style completion payload settles its continuation.
pub enum Settled<T, E> {
    /// The continuation is fulfilled with the value.
    Fulfilled(T),
    /// The continuation is rejected with the error.
    Rejected(E),
}

/// Translates a result-style payload into settling the continuation:
/// fulfilled with the value or rejected with the error — exactly one
/// branch, never both, never neither.
pub fn settle<T, E>(outcome: Result<T, E>) -> (s: Settled<T, E>)
    ensures
        match outcome {
            Ok(v) => s == Settled::<T, E>::Fulfilled(v),
            Err(e) => s == Settled::<T, E>::Rejected(e),
        },
{
    match outcome {
        Ok(v) => Settled::Fulfilled(v),
        Err(e) => Settled::Rejected(e),
    }
}

// ---------------------------------------------------------------------------
// The callback panic protocol.
// ---------------------------------------------------------------------------

/// What re-entering host code from a native frame produced.
pub enum CallOutcome<R, F> {
    /// The callback ran to completion with this value.
    Completed(R),
    /// The callback failed; the failure object must not unwind across the
    /// native frame.
    Panicked(F),
}

/// What the trampoline hands back to the native side.
pub enum TrampolineReturn<R> {
    /// The callback's value passes through.
    Value(R),
    /// The failure is signalled through the error channel as the reserved
    /// panic code (or the declared default where no error channel exists).
    Panic,
}

/// The retained-failure slot of one callback trampoline.
pub struct CallbackSlot<F> {
    /// The failure caught at the trampoline boundary, if any, kept until
    /// an explicit rethrow.
    pub retained: Option<F>,
}

/// The state and return of absorbing one call outcome.
pub open spec fn absorbed<R, F>(slot: CallbackSlot<F>, outcome: CallOutcome<R, F>) -> (
    CallbackSlot<F>,
    TrampolineReturn<R>,
) {
    match outcome {
        CallOutcome::Completed(v) => (slot, TrampolineReturn::Value(v)),
        CallOutcome::Panicked(f) => (
            CallbackSlot { retained: Some(f) },
            TrampolineReturn::Panic,
        ),
    }
}

/// The state and result of a rethrow.
pub open spec fn rethrown<F>(slot: CallbackSlot<F>) -> (CallbackSlot<F>, Option<F>) {
    (CallbackSlot { retained: None }, slot.retained)
}

impl<F> CallbackSlot<F> {
    /// A slot with no retained failure.
    pub fn new() -> (r: CallbackSlot<F>)
        ensures
            r.retained is None,
    {
        CallbackSlot { retained: None }
    }

    /// The trampoline boundary: catches a failure instead of letting it
    /// unwind across the native frame, retains it, and signals the panic
    /// code; a completed callback passes its value through untouched.
    pub fn absorb<R>(&mut self, outcome: CallOutcome<R, F>) -> (r: TrampolineReturn<R>)
        ensures
            (*final(self), r) == absorbed(*old(self), outcome),
    {
        match outcome {
            CallOutcome::Completed(v) => TrampolineReturn::Value(v),
            CallOutcome::Panicked(f) => {
                self.retained = Some(f);
                TrampolineReturn::Panic
            },
        }
    }

    /// Once control is safely back in host code: re-raises the retained
    /// failure by handing it out, exactly once. With no retained failure
    /// this is a no-op that yields nothing.
    pub fn rethrow(&mut self) -> (r: Option<F>)
        ensures
            (*final(self), r) == rethrown(*old(self)),
    {
        self.retained.take()
    }
}

/// The rethrow discipline: a failure caught during native re-entry is
/// re-raised exactly once — the first rethrow after the failure yields it,
/// any further rethrow yields nothing — and a rethrow with no prior
/// failure is a no-op.
pub proof fn lemma_rethrow_exactly_once<R, F>(slot: CallbackSlot<F>, f: F)
    ensures
        ({
            let (after_panic, signalled) = absorbed::<R, F>(slot, CallOutcome::Panicked(f));
            let (after_first, first) = rethrown(after_panic);
            let (after_second, second) = rethrown(after_first);
            &&& signalled == TrampolineReturn::<R>::Panic
            &&& first == Some(f)
            &&& second == None::<F>
        }),
        slot.retained is None ==> rethrown(slot) == (slot, None::<F>),
{
}

} // verus!
