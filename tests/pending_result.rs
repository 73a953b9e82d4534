use browser_window::handle::ApplicationHandle;
use browser_window::pending::{deliver, run_and_deliver, settle, DispatchError, PendingResult, Progress};
use futures_channel::oneshot::{channel, Canceled};

#[test]
fn settle_value() {
    assert!(matches!(settle(true, Ok::<Option<u32>, Canceled>(Some(5))), Progress::Ready(Ok(5))));
}

#[test]
fn settle_nothing_yet() {
    assert!(matches!(settle(true, Ok::<Option<u32>, Canceled>(None)), Progress::Pending));
}

#[test]
fn settle_dropped_sender() {
    assert!(matches!(
        settle::<u32>(true, Err(Canceled)),
        Progress::Ready(Err(DispatchError::Disconnected))
    ));
}

#[test]
fn settle_refused_work() {
    assert!(matches!(
        settle(false, Ok::<Option<u32>, Canceled>(Some(5))),
        Progress::Ready(Err(DispatchError::Rejected))
    ));
}

#[test]
fn dispatched_closure_result_arrives() {
    let (tx, rx) = channel::<i32>();
    let mut pending = PendingResult::new(rx, true);
    assert!(matches!(pending.poll(), Progress::Pending));
    assert!(run_and_deliver(|_h: ApplicationHandle| 21 * 2, ApplicationHandle::new(1), tx));
    assert!(matches!(pending.poll(), Progress::Ready(Ok(42))));
}

#[test]
fn refused_call_fails_without_waiting() {
    let (_tx, rx) = channel::<i32>();
    let mut pending = PendingResult::new(rx, false);
    assert!(matches!(pending.poll(), Progress::Ready(Err(DispatchError::Rejected))));
}

#[test]
fn sender_dropped_without_value_disconnects() {
    let (tx, rx) = channel::<i32>();
    let mut pending = PendingResult::new(rx, true);
    drop(tx);
    assert!(matches!(pending.poll(), Progress::Ready(Err(DispatchError::Disconnected))));
}

#[test]
fn delivery_to_dropped_receiver_is_harmless() {
    let (tx, rx) = channel::<String>();
    drop(rx);
    assert!(!deliver(tx, "late".to_string()));
}

#[test]
fn delivery_to_waiting_receiver_succeeds() {
    let (tx, mut rx) = channel::<u8>();
    assert!(deliver(tx, 7));
    assert_eq!(rx.try_recv(), Ok(Some(7)));
}

#[test]
fn resolve_follows_schedule_and_content() {
    let (_tx, rx) = channel::<u8>();
    let pending = PendingResult::new(rx, true);
    assert!(pending.scheduled());
    assert!(matches!(pending.resolve(Ok(Some(3))), Progress::Ready(Ok(3))));
    assert!(matches!(pending.resolve(Ok(None)), Progress::Pending));
    assert!(matches!(pending.resolve(Err(Canceled)), Progress::Ready(Err(DispatchError::Disconnected))));
    let (_tx2, rx2) = channel::<u8>();
    let refused = PendingResult::new(rx2, false);
    assert!(matches!(refused.resolve(Ok(Some(3))), Progress::Ready(Err(DispatchError::Rejected))));
}

#[test]
fn receiver_reached_through_pending_result() {
    let (tx, rx) = channel::<u8>();
    let mut pending = PendingResult::new(rx, true);
    assert!(deliver(tx, 9));
    let received = pending.receiver_mut().try_recv();
    assert!(matches!(pending.resolve(received), Progress::Ready(Ok(9))));
}
