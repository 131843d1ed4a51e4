use signals_receipts::Receipt;
use std::cmp::Ordering;
use std::ops::ControlFlow;

fn receipt(sig: i32, count: u64, state: i32) -> Receipt<u64, i32, i32> {
    Receipt::new(sig, count, state)
}

#[test]
fn new_receipt_continues_with_the_state() {
    let r = receipt(10, 3, 7);
    assert_eq!(r.sig_num, 10);
    assert_eq!(r.cur_count, 3);
    assert_eq!(r.flow, ControlFlow::Continue(7));
}

#[test]
fn break_loop_uses_the_default() {
    let mut r = receipt(10, 1, 7);
    r.break_loop();
    assert_eq!(r.flow, ControlFlow::Break(0));
    assert_eq!(r.sig_num, 10);
    assert_eq!(r.cur_count, 1);
}

#[test]
fn break_loop_with_a_value() {
    let mut r = receipt(10, 1, 7);
    r.break_loop_with(99);
    assert_eq!(r.flow, ControlFlow::Break(99));
}

#[test]
fn state_accessors() {
    let mut r = receipt(2, 1, 5);
    assert_eq!(*r.get_state_ref(), 5);
    *r.get_state_mut() += 10;
    assert_eq!(*r.get_state_ref(), 15);
    r.update_state(|s| *s *= 2);
    assert_eq!(r.flow, ControlFlow::Continue(30));
    assert_eq!(r.replace_state(4), 30);
    assert_eq!(r.take_state(), 4);
    assert_eq!(r.flow, ControlFlow::Continue(0));
    r.break_loop_with(1);
    r.set_state(8);
    assert_eq!(r.flow, ControlFlow::Continue(8));
}

#[test]
fn receipts_order_by_signal_then_count_then_flow() {
    assert_eq!(receipt(1, 9, 9).compare(&receipt(2, 0, 0)), Ordering::Less);
    assert_eq!(receipt(3, 0, 0).compare(&receipt(2, 9, 9)), Ordering::Greater);
    assert_eq!(receipt(2, 1, 9).compare(&receipt(2, 2, 0)), Ordering::Less);
    assert_eq!(receipt(2, 2, 1).compare(&receipt(2, 2, 3)), Ordering::Less);
    assert_eq!(receipt(2, 2, 3).compare(&receipt(2, 2, 3)), Ordering::Equal);
    let mut broken = receipt(2, 2, 0);
    broken.break_loop_with(-100);
    assert_eq!(receipt(2, 2, 100).compare(&broken), Ordering::Less);
    assert_eq!(broken.compare(&receipt(2, 2, 100)), Ordering::Greater);
    let mut broken2 = receipt(2, 2, 0);
    broken2.break_loop_with(-50);
    assert_eq!(broken.compare(&broken2), Ordering::Less);
    assert!(receipt(1, 1, 1) < receipt(1, 2, 0));
    assert_eq!(receipt(4, 4, 4).partial_cmp(&receipt(4, 4, 4)), Some(Ordering::Equal));
}
