use signals_receipts::atomics::{
    incremented_u16, incremented_u32, incremented_u64, incremented_u8, next_u16, next_u32, next_u64,
    next_u8,
};
use signals_receipts::AtomicUInt;
use std::sync::atomic::{AtomicU16, AtomicU32, AtomicU64, AtomicU8, Ordering};

#[test]
fn basic() {
    let a1 = AtomicU64::new(1);
    assert_eq!(a1.saturating_incr(), 2);
    let a2 = AtomicU8::new(u8::MAX);
    assert_eq!(a2.saturating_incr(), u8::MAX);
}

#[test]
fn next_values_stop_at_the_maximum() {
    assert_eq!(next_u8(0), Some(1));
    assert_eq!(next_u8(254), Some(255));
    assert_eq!(next_u8(u8::MAX), None);
    assert_eq!(next_u16(u16::MAX - 1), Some(u16::MAX));
    assert_eq!(next_u16(u16::MAX), None);
    assert_eq!(next_u32(41), Some(42));
    assert_eq!(next_u32(u32::MAX), None);
    assert_eq!(next_u64(u64::MAX - 1), Some(u64::MAX));
    assert_eq!(next_u64(u64::MAX), None);
}

#[test]
fn successive_deliveries_are_all_counted() {
    let counter = AtomicU64::new(0);
    for n in 1..=1000u64 {
        assert_eq!(counter.saturating_incr(), n);
    }
    assert_eq!(counter.swap(0, Ordering::Relaxed), 1000);
    assert_eq!(counter.load(Ordering::Relaxed), 0);
}

#[test]
fn counting_saturates_instead_of_wrapping() {
    let counter = AtomicU8::new(250);
    let seen: Vec<u8> = (0..10).map(|_| counter.saturating_incr()).collect();
    assert_eq!(seen, vec![251, 252, 253, 254, 255, 255, 255, 255, 255, 255]);
    assert_eq!(counter.load(Ordering::Relaxed), u8::MAX);
    let c16 = AtomicU16::new(u16::MAX);
    assert_eq!(c16.saturating_incr(), u16::MAX);
    let c32 = AtomicU32::new(u32::MAX - 1);
    assert_eq!(c32.saturating_incr(), u32::MAX);
    assert_eq!(c32.saturating_incr(), u32::MAX);
}

#[test]
fn distinct_counters_do_not_mix() {
    let x = AtomicU64::new(0);
    let y = AtomicU64::new(0);
    x.saturating_incr();
    y.saturating_incr();
    y.saturating_incr();
    assert_eq!(x.swap(0, Ordering::Relaxed), 1);
    assert_eq!(y.swap(0, Ordering::Relaxed), 2);
}

#[test]
fn trait_helpers() {
    assert_eq!(<AtomicU64 as AtomicUInt>::max_value(), u64::MAX);
    assert_eq!(<AtomicU8 as AtomicUInt>::zero(), 0);
    assert!(<AtomicU32 as AtomicUInt>::is_zero(0));
    assert!(!<AtomicU16 as AtomicUInt>::is_zero(3));
    let a = AtomicU32::new(5);
    assert_eq!(AtomicUInt::compare_exchange(&a, 5, 6, Ordering::Relaxed, Ordering::Relaxed), Ok(5));
    assert_eq!(AtomicUInt::compare_exchange(&a, 5, 7, Ordering::Relaxed, Ordering::Relaxed), Err(6));
    assert_eq!(AtomicUInt::swap(&a, 9, Ordering::Relaxed), 6);
    assert_eq!(AtomicUInt::load(&a, Ordering::Relaxed), 9);
}

#[test]
fn incremented_step_of_each_width() {
    assert_eq!(incremented_u8(Ok(1)), 2);
    assert_eq!(incremented_u8(Err(u8::MAX)), u8::MAX);
    assert_eq!(incremented_u16(Ok(u16::MAX - 1)), u16::MAX);
    assert_eq!(incremented_u16(Err(u16::MAX)), u16::MAX);
    assert_eq!(incremented_u32(Ok(0)), 1);
    assert_eq!(incremented_u32(Err(u32::MAX)), u32::MAX);
    assert_eq!(incremented_u64(Ok(41)), 42);
    assert_eq!(incremented_u64(Err(u64::MAX)), u64::MAX);
}
