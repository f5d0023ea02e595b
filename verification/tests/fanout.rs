use std::sync::Arc;

use syncroom::fanout::{unbounded, AoW, Receiver, Sender};

#[test]
fn broadcast_test() {
    let (mut tx, rx) = unbounded::<u32>();
    let rx2 = rx.clone();
    let _ = tx.send(0xDEADBEEF);
    assert_eq!(rx.recv(), Ok(0xDEADBEEF));
    assert_eq!(rx2.recv(), Ok(0xDEADBEEF));
    let rx3 = rx.clone();
    let _ = tx.send(0x1337FFFF);
    assert_eq!(rx.recv(), Ok(0x1337FFFF));
    assert_eq!(rx2.recv(), Ok(0x1337FFFF));
    assert_eq!(rx3.recv(), Ok(0x1337FFFF));
    drop(tx);
    assert_eq!(rx.recv(), Err(flume::RecvError::Disconnected));
    assert_eq!(rx2.recv(), Err(flume::RecvError::Disconnected));
}

#[test]
fn new_channel_has_one_outlet() {
    let (tx, _rx) = unbounded::<u8>();
    assert_eq!(tx.outlet_count(), 1);
    assert!(tx.outlet(0).is_some());
    assert!(tx.outlet(1).is_none());
}

#[test]
fn clone_registers_on_next_send() {
    let (mut tx, rx) = unbounded::<u8>();
    let _rx2 = rx.clone();
    let _rx3 = rx.clone();
    assert_eq!(tx.outlet_count(), 1);
    assert!(tx.send(7).is_ok());
    assert_eq!(tx.outlet_count(), 3);
}

#[test]
fn dropped_receiver_outlet_is_closed() {
    let (mut tx, rx) = unbounded::<u8>();
    let rx2 = rx.clone();
    assert!(tx.send(1).is_ok());
    assert_eq!(tx.outlet_count(), 2);
    drop(rx2);
    assert!(tx.send(2).is_ok());
    assert!(tx.outlet(0).is_some());
    assert!(tx.outlet(1).is_none());
    assert_eq!(rx.recv(), Ok(1));
    assert_eq!(rx.recv(), Ok(2));
}

#[test]
fn send_fails_when_every_receiver_is_gone() {
    let (mut tx, rx) = unbounded::<u8>();
    drop(rx);
    let r = tx.send(5);
    assert!(r.is_err());
    assert_eq!(r.unwrap_err().into_inner(), 5);
    assert_eq!(tx.outlet_count(), 1);
}

#[test]
fn settle_closes_undelivered_outlet() {
    let (mut tx, _rx) = unbounded::<u8>();
    tx.settle(0, true);
    assert!(tx.outlet(0).is_some());
    tx.settle(0, false);
    assert!(tx.outlet(0).is_none());
}

#[test]
fn register_pending_reports_closed_registry() {
    let (mut tx, rx) = unbounded::<u8>();
    assert!(tx.register_pending());
    drop(rx);
    assert!(!tx.register_pending());
}

#[test]
fn aow_upgrade_and_downgrade() {
    let shared = Arc::new(3u8);
    let mut p = AoW::Arc(shared.clone());
    assert!(p.upgrade());
    assert!(matches!(p, AoW::Arc(_)));
    p.downgrade();
    assert!(matches!(p, AoW::Weak(_)));
    p.downgrade();
    assert!(matches!(p, AoW::Weak(_)));
    assert!(p.upgrade());
    assert!(matches!(p, AoW::Arc(_)));
    p.downgrade();
    drop(shared);
    assert!(!p.upgrade());
    assert!(matches!(p, AoW::Weak(_)));
}

#[test]
fn weak_receiver_does_not_keep_registry() {
    let (mut tx, rx) = unbounded::<u8>();
    let mut weak = rx.clone();
    weak.downgrade();
    assert!(weak.upgrade());
    weak.downgrade();
    drop(rx);
    assert!(!tx.register_pending());
    assert!(!weak.upgrade());
    let _: &Receiver<u8> = &weak;
    let _: &Sender<u8> = &tx;
}

#[test]
fn aow_clone_keeps_kind() {
    let shared = Arc::new(11u8);
    let strong = AoW::Arc(shared.clone());
    match strong.clone() {
        AoW::Arc(a) => assert_eq!(*a, 11),
        AoW::Weak(_) => panic!("a clone of a strong pointer is strong"),
    }
    let mut weak = strong.clone();
    weak.downgrade();
    let mut again = weak.clone();
    assert!(matches!(again, AoW::Weak(_)));
    assert!(again.upgrade());
}

#[test]
fn clone_of_weak_receiver_is_weak_and_registers() {
    let (mut tx, rx) = unbounded::<u8>();
    let mut weak = rx.clone();
    weak.downgrade();
    let mut weak2 = weak.clone();
    assert!(tx.send(9).is_ok());
    assert_eq!(tx.outlet_count(), 3);
    assert_eq!(weak2.recv(), Ok(9));
    weak2.downgrade();
    assert!(weak2.upgrade());
}

#[test]
fn downgrade_then_upgrade_gives_same_allocation() {
    let shared = Arc::new(21u8);
    let mut p = AoW::Arc(shared.clone());
    p.downgrade();
    assert!(p.upgrade());
    match p {
        AoW::Arc(a) => assert!(Arc::ptr_eq(&a, &shared)),
        AoW::Weak(_) => panic!("the pointer is alive"),
    }
}
