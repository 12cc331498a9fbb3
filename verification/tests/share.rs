use semtraits::Share;
use std::rc::Rc;
use std::sync::mpsc;
use std::sync::Arc;

#[test]
fn shared_rc_points_to_the_same_allocation() {
    let origin = Rc::new(vec![1, 2, 3]);
    let first = origin.share();
    let second = Rc::share(&origin);
    assert!(Rc::ptr_eq(&first, &second));
    assert!(Rc::ptr_eq(&first, &origin));
    assert_eq!(*first, vec![1, 2, 3]);
}

#[test]
fn sharing_an_rc_counts_one_more_owner() {
    let origin = Rc::new(5u8);
    assert_eq!(Rc::strong_count(&origin), 1);
    let handle = origin.share();
    assert_eq!(Rc::strong_count(&origin), 2);
    drop(handle);
    assert_eq!(Rc::strong_count(&origin), 1);
}

#[test]
fn shared_arc_points_to_the_same_allocation() {
    let origin = Arc::new(vec![1, 2, 3]);
    let first = origin.share();
    let second = Arc::share(&origin);
    assert!(Arc::ptr_eq(&first, &second));
    assert!(Arc::ptr_eq(&first, &origin));
    assert_eq!(*second, vec![1, 2, 3]);
}

#[test]
fn sharing_an_arc_counts_one_more_owner() {
    let origin = Arc::new(5u8);
    let handle = origin.share();
    assert_eq!(Arc::strong_count(&origin), 2);
    drop(handle);
    assert_eq!(Arc::strong_count(&origin), 1);
}

#[test]
fn shared_senders_feed_the_same_receiver() {
    let (tx, rx) = mpsc::channel();
    let tx1 = tx.share();
    let tx2 = tx.share();
    tx1.send(10).unwrap();
    tx2.send(11).unwrap();
    tx.send(12).unwrap();
    assert_eq!(rx.recv().unwrap(), 10);
    assert_eq!(rx.recv().unwrap(), 11);
    assert_eq!(rx.recv().unwrap(), 12);
}

#[test]
fn shared_sync_senders_feed_the_same_receiver() {
    let (tx, rx) = mpsc::sync_channel(2);
    let tx1 = tx.share();
    tx1.send(10).unwrap();
    tx.send(11).unwrap();
    assert_eq!(rx.recv().unwrap(), 10);
    assert_eq!(rx.recv().unwrap(), 11);
}

#[test]
fn a_shared_sender_keeps_the_channel_open() {
    let (tx, rx) = mpsc::channel::<u8>();
    let tx1 = tx.share();
    drop(tx);
    tx1.send(3).unwrap();
    assert_eq!(rx.recv(), Ok(3));
    drop(tx1);
    assert!(rx.recv().is_err());
}
