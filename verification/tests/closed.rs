use semtraits::{OrClosed, RECV_PANIC_MESSAGE, SEND_PANIC_MESSAGE};
use semtraits::Share;
use std::sync::mpsc::{self, RecvError, SendError};

#[test]
fn diagnostics_have_the_documented_text() {
    assert_eq!(SEND_PANIC_MESSAGE, "sending with disconnected receiver");
    assert_eq!(RECV_PANIC_MESSAGE, "receiving with no senders");
    assert_ne!(SEND_PANIC_MESSAGE, RECV_PANIC_MESSAGE);
}

#[test]
fn send_and_receive_on_an_open_channel() {
    let (tx, rx) = mpsc::channel();
    tx.send(10).or_closed();
    assert_eq!(rx.recv().or_closed(), 10);
}

#[test]
fn or_closed_returns_the_wrapped_value_unchanged() {
    let sent: Result<&str, SendError<u8>> = Ok("delivered");
    assert_eq!(sent.or_closed(), "delivered");
    let received: Result<Vec<u8>, RecvError> = Ok(vec![1, 2, 3]);
    assert_eq!(received.or_closed(), vec![1, 2, 3]);
    let unit: Result<(), SendError<String>> = Ok(());
    assert_eq!(unit.or_closed(), ());
}

#[test]
fn an_open_channel_has_no_diagnostic() {
    let sent: Result<(), SendError<u8>> = Ok(());
    assert_eq!(sent.closed_message(), None);
    let received: Result<u8, RecvError> = Ok(7);
    assert_eq!(received.closed_message(), None);
}

#[test]
fn a_failed_send_has_the_send_side_diagnostic() {
    let failed: Result<(), SendError<u8>> = Err(SendError(7));
    assert_eq!(failed.closed_message(), Some("sending with disconnected receiver"));
}

#[test]
fn a_failed_receive_has_the_receive_side_diagnostic() {
    let failed: Result<u8, RecvError> = Err(RecvError);
    assert_eq!(failed.closed_message(), Some("receiving with no senders"));
}

#[test]
fn two_shared_senders_deliver_then_the_channel_closes() {
    let (tx, rx) = mpsc::channel();
    let tx1 = tx.share();
    tx1.send(10).or_closed();
    tx.send(10).or_closed();
    drop(tx1);
    drop(tx);
    assert_eq!(rx.recv().or_closed(), 10);
    assert_eq!(rx.recv().or_closed(), 10);
    let after = rx.recv();
    assert_eq!(after, Err(RecvError));
    assert_eq!(after.closed_message(), Some(RECV_PANIC_MESSAGE));
}

#[test]
fn sending_after_the_receiver_is_dropped_is_diagnosed() {
    let (tx, rx) = mpsc::channel();
    drop(rx);
    let outcome = tx.send(1);
    assert_eq!(outcome, Err(SendError(1)));
    assert_eq!(outcome.closed_message(), Some("sending with disconnected receiver"));
}

#[test]
fn sending_on_a_bounded_channel_after_the_receiver_is_dropped_is_diagnosed() {
    let (tx, rx) = mpsc::sync_channel(1);
    tx.send(1).or_closed();
    assert_eq!(rx.recv().or_closed(), 1);
    drop(rx);
    assert_eq!(tx.send(2).closed_message(), Some("sending with disconnected receiver"));
}

#[test]
fn receiving_after_the_senders_are_dropped_is_diagnosed() {
    let (tx, rx) = mpsc::channel::<u8>();
    drop(tx);
    let outcome = rx.recv();
    assert_eq!(outcome.closed_message(), Some("receiving with no senders"));
}

#[test]
fn values_sent_before_the_senders_left_are_still_received() {
    let (tx, rx) = mpsc::channel();
    tx.send(4).or_closed();
    drop(tx);
    let first = rx.recv();
    assert_eq!(first.closed_message(), None);
    assert_eq!(first.or_closed(), 4);
    assert_eq!(rx.recv().closed_message(), Some(RECV_PANIC_MESSAGE));
}

fn value_if_open<R: OrClosed>(outcome: R) -> Option<R::Value> {
    match outcome.closed_message() {
        None => Some(outcome.or_closed()),
        Some(_) => None,
    }
}

#[test]
fn an_outcome_without_diagnostic_can_be_unwrapped() {
    let (tx, rx) = mpsc::channel();
    assert_eq!(value_if_open(tx.send(8)), Some(()));
    assert_eq!(value_if_open(rx.recv()), Some(8));
    drop(tx);
    assert_eq!(value_if_open(rx.recv()), None);
}
