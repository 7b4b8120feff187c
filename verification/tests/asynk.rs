//! Tests of the async completion protocol and the callback panic protocol.

use interoptopus::asynk::AsyncDispatch;
use interoptopus::asynk::CallOutcome;
use interoptopus::asynk::CallbackSlot;
use interoptopus::asynk::Settled;
use interoptopus::asynk::TrampolineReturn;
use interoptopus::asynk::settle;

#[test]
fn completions_in_reverse_order_deliver_exactly_once() {
    let mut dispatch: AsyncDispatch<u64> = AsyncDispatch::new();
    let t0 = dispatch.issue();
    let t1 = dispatch.issue();
    let t2 = dispatch.issue();
    assert_ne!(t0, t1);
    assert_ne!(t1, t2);
    assert_ne!(t0, t2);

    // Completions arrive in reverse issue order.
    assert!(dispatch.complete(t2, 22));
    assert!(dispatch.complete(t1, 11));
    assert!(dispatch.complete(t0, 0));

    // Each continuation received its own result, none crossed over.
    assert_eq!(dispatch.delivered.len(), 3);
    assert_eq!(dispatch.delivered[0], (t2, 22));
    assert_eq!(dispatch.delivered[1], (t1, 11));
    assert_eq!(dispatch.delivered[2], (t0, 0));

    // A second completion of the same token is refused: at most once.
    assert!(!dispatch.complete(t1, 99));
    assert_eq!(dispatch.delivered.len(), 3);
}

#[test]
fn unknown_token_delivers_nothing() {
    let mut dispatch: AsyncDispatch<u64> = AsyncDispatch::new();
    let _t0 = dispatch.issue();
    assert!(!dispatch.complete(77, 1));
    assert_eq!(dispatch.delivered.len(), 0);
}

#[test]
fn result_payload_settles_exactly_one_branch() {
    let fulfilled: Settled<u32, &str> = settle(Ok(5));
    assert!(matches!(fulfilled, Settled::Fulfilled(5)));

    let rejected: Settled<u32, &str> = settle(Err("bad"));
    assert!(matches!(rejected, Settled::Rejected("bad")));
}

#[test]
fn panic_is_absorbed_and_rethrown_exactly_once() {
    let mut slot: CallbackSlot<String> = CallbackSlot::new();

    // A failing callback must not unwind across the native frame: the
    // enclosing call reports the panic signal instead.
    let r: TrampolineReturn<u32> = slot.absorb(CallOutcome::Panicked(String::from("boom")));
    assert!(matches!(r, TrampolineReturn::Panic));

    // The first rethrow reproduces the original failure.
    assert_eq!(slot.rethrow(), Some(String::from("boom")));

    // A second rethrow is a no-op.
    assert_eq!(slot.rethrow(), None);
}

#[test]
fn rethrow_without_failure_is_noop() {
    let mut slot: CallbackSlot<String> = CallbackSlot::new();
    assert_eq!(slot.rethrow(), None);

    // A completed callback passes its value through and retains nothing.
    let r: TrampolineReturn<u32> = slot.absorb(CallOutcome::Completed(7));
    assert!(matches!(r, TrampolineReturn::Value(7)));
    assert_eq!(slot.rethrow(), None);
}
