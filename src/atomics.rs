use core::sync::atomic::{AtomicU16, AtomicU32, AtomicU64, AtomicU8, Ordering};
use vstd::prelude::*;

verus! {

/// The value a counter takes after one more delivery: one more, but never past `max`.
pub open spec fn next_count(cur: int, max: int) -> int {
    if cur >= max {
        max
    } else {
        cur + 1
    }
}

/// The next value of a `u64` counter, or `None` at the maximum where it stays.
pub fn next_u64(cur: u64) -> (r: Option<u64>)
    ensures
        cur < u64::MAX ==> r == Some((cur + 1) as u64),
        cur == u64::MAX ==> r is None,
{
    if cur == u64::MAX {
        None
    } else {
        Some(cur + 1)
    }
}


/// An unsigned integer with the atomic operations that the receipt counters need.
///
/// Every method must be async-signal-safe, because the signal handler calls them in interrupt
/// context; the implementations here use lock-free machine operations only.
pub trait AtomicUInt: Default + Sized + 'static {
    /// The corresponding primitive unsigned integer type.
    type UInt: Copy;

    /// The value of `v` as a mathematical integer.
    spec fn as_int(v: Self::UInt) -> int;

    /// The largest value that `Self::UInt` represents.
    spec fn max_int() -> int;

    /// The largest value that `Self::UInt` represents.
    fn max_value() -> (r: Self::UInt)
        ensures
            Self::as_int(r) == Self::max_int(),
    ;

    /// Zero of `Self::UInt`.
    fn zero() -> (r: Self::UInt)
        ensures
            Self::as_int(r) == 0,
    ;

    /// Whether `v` is zero.
    fn is_zero(v: Self::UInt) -> (r: bool)
        ensures
            r == (Self::as_int(v) == 0),
    ;

    /// Like `load` of the std atomic type, which refuses a release ordering.
    fn load(&self, order: Ordering) -> (r: Self::UInt)
        requires
            !(order is Release),
            !(order is AcqRel),
        ensures
            0 <= Self::as_int(r) <= Self::max_int(),
    ;

    /// Like `swap` of the std atomic type: stores `val` and returns the value held before.
    fn swap(&self, val: Self::UInt, order: Ordering) -> (r: Self::UInt)
        ensures
            0 <= Self::as_int(r) <= Self::max_int(),
    ;

    /// Like `compare_exchange` of the std atomic type, which refuses a release ordering for the
    /// failure case.
    fn compare_exchange(
        &self,
        current: Self::UInt,
        new: Self::UInt,
        success: Ordering,
        failure: Ordering,
    ) -> Result<Self::UInt, Self::UInt>
        requires
            !(failure is Release),
            !(failure is AcqRel),
    ;

    /// Adds one without ever wrapping: at the maximum the value stays, and the new value is
    /// returned. Which value the counter held when the increment took effect depends on other
    /// threads and handlers, so the contract says what holds of every outcome; the result is
    /// computed from that value by the width's `incremented_*` step, whose contract is exact.
    fn saturating_incr(&self) -> (r: Self::UInt)
        ensures
            exists|prev: int|
                0 <= prev <= Self::max_int() && Self::as_int(r) == next_count(
                    prev,
                    Self::max_int(),
                ),
    ;
}

/// The next value of a `u8` counter, or `None` at the maximum where it stays.
pub fn next_u8(cur: u8) -> (r: Option<u8>)
    ensures
        cur < u8::MAX ==> r == Some((cur + 1) as u8),
        cur == u8::MAX ==> r is None,
{
    if cur == u8::MAX {
        None
    } else {
        Some(cur + 1)
    }
}

/// The value that a saturating increment returns, given what `fetch_next_u8` reported: one more
/// than the value held where it was incremented, and the value itself where it was the maximum.
pub fn incremented_u8(fetched: Result<u8, u8>) -> (r: u8)
    requires
        fetched matches Ok(prev) ==> prev < u8::MAX,
    ensures
        fetched matches Ok(prev) ==> r == prev + 1,
        fetched matches Err(prev) ==> r == prev,
        fetched matches Ok(prev) ==> r as int == next_count(prev as int, u8::MAX as int),
{
    match fetched {
        Ok(prev) => prev + 1,
        Err(prev) => prev,
    }
}

/// Relies on `AtomicU8::fetch_update`: it applies `next_u8` to the value held, retrying its
/// compare-exchange until that succeeds, and returns `Ok(previous)` where `next_u8` gave a new
/// value and `Err(previous)` where it gave none.
#[verifier::external_body]
fn fetch_next_u8(a: &AtomicU8) -> (r: Result<u8, u8>)
    ensures
        match r {
            Ok(prev) => prev < u8::MAX,
            Err(prev) => prev == u8::MAX,
        },
{
    a.fetch_update(Ordering::Relaxed, Ordering::Relaxed, next_u8)
}

impl AtomicUInt for AtomicU8 {
    type UInt = u8;

    open spec fn as_int(v: u8) -> int {
        v as int
    }

    open spec fn max_int() -> int {
        u8::MAX as int
    }

    fn max_value() -> (r: u8) {
        u8::MAX
    }

    fn zero() -> (r: u8) {
        0
    }

    fn is_zero(v: u8) -> (r: bool) {
        v == 0
    }

    fn load(&self, order: Ordering) -> (r: u8) {
        AtomicU8::load(self, order)
    }

    fn swap(&self, val: u8, order: Ordering) -> (r: u8) {
        AtomicU8::swap(self, val, order)
    }

    fn compare_exchange(
        &self,
        current: u8,
        new: u8,
        success: Ordering,
        failure: Ordering,
    ) -> Result<u8, u8> {
        AtomicU8::compare_exchange(self, current, new, success, failure)
    }

    fn saturating_incr(&self) -> (r: u8) {
        let fetched = fetch_next_u8(self);
        proof {
            match fetched {
                Ok(prev) => assert(Self::as_int((prev + 1) as u8) == next_count(
                    prev as int,
                    Self::max_int(),
                )),
                Err(prev) => assert(Self::as_int(prev) == next_count(prev as int, Self::max_int())),
            }
        }
        incremented_u8(fetched)
    }
}

/// The next value of a `u16` counter, or `None` at the maximum where it stays.
pub fn next_u16(cur: u16) -> (r: Option<u16>)
    ensures
        cur < u16::MAX ==> r == Some((cur + 1) as u16),
        cur == u16::MAX ==> r is None,
{
    if cur == u16::MAX {
        None
    } else {
        Some(cur + 1)
    }
}

/// The value that a saturating increment returns, given what `fetch_next_u16` reported: one more
/// than the value held where it was incremented, and the value itself where it was the maximum.
pub fn incremented_u16(fetched: Result<u16, u16>) -> (r: u16)
    requires
        fetched matches Ok(prev) ==> prev < u16::MAX,
    ensures
        fetched matches Ok(prev) ==> r == prev + 1,
        fetched matches Err(prev) ==> r == prev,
        fetched matches Ok(prev) ==> r as int == next_count(prev as int, u16::MAX as int),
{
    match fetched {
        Ok(prev) => prev + 1,
        Err(prev) => prev,
    }
}

/// Relies on `AtomicU16::fetch_update`: it applies `next_u16` to the value held, retrying its
/// compare-exchange until that succeeds, and returns `Ok(previous)` where `next_u16` gave a new
/// value and `Err(previous)` where it gave none.
#[verifier::external_body]
fn fetch_next_u16(a: &AtomicU16) -> (r: Result<u16, u16>)
    ensures
        match r {
            Ok(prev) => prev < u16::MAX,
            Err(prev) => prev == u16::MAX,
        },
{
    a.fetch_update(Ordering::Relaxed, Ordering::Relaxed, next_u16)
}

impl AtomicUInt for AtomicU16 {
    type UInt = u16;

    open spec fn as_int(v: u16) -> int {
        v as int
    }

    open spec fn max_int() -> int {
        u16::MAX as int
    }

    fn max_value() -> (r: u16) {
        u16::MAX
    }

    fn zero() -> (r: u16) {
        0
    }

    fn is_zero(v: u16) -> (r: bool) {
        v == 0
    }

    fn load(&self, order: Ordering) -> (r: u16) {
        AtomicU16::load(self, order)
    }

    fn swap(&self, val: u16, order: Ordering) -> (r: u16) {
        AtomicU16::swap(self, val, order)
    }

    fn compare_exchange(
        &self,
        current: u16,
        new: u16,
        success: Ordering,
        failure: Ordering,
    ) -> Result<u16, u16> {
        AtomicU16::compare_exchange(self, current, new, success, failure)
    }

    fn saturating_incr(&self) -> (r: u16) {
        let fetched = fetch_next_u16(self);
        proof {
            match fetched {
                Ok(prev) => assert(Self::as_int((prev + 1) as u16) == next_count(
                    prev as int,
                    Self::max_int(),
                )),
                Err(prev) => assert(Self::as_int(prev) == next_count(prev as int, Self::max_int())),
            }
        }
        incremented_u16(fetched)
    }
}

/// The next value of a `u32` counter, or `None` at the maximum where it stays.
pub fn next_u32(cur: u32) -> (r: Option<u32>)
    ensures
        cur < u32::MAX ==> r == Some((cur + 1) as u32),
        cur == u32::MAX ==> r is None,
{
    if cur == u32::MAX {
        None
    } else {
        Some(cur + 1)
    }
}

/// The value that a saturating increment returns, given what `fetch_next_u32` reported: one more
/// than the value held where it was incremented, and the value itself where it was the maximum.
pub fn incremented_u32(fetched: Result<u32, u32>) -> (r: u32)
    requires
        fetched matches Ok(prev) ==> prev < u32::MAX,
    ensures
        fetched matches Ok(prev) ==> r == prev + 1,
        fetched matches Err(prev) ==> r == prev,
        fetched matches Ok(prev) ==> r as int == next_count(prev as int, u32::MAX as int),
{
    match fetched {
        Ok(prev) => prev + 1,
        Err(prev) => prev,
    }
}

/// Relies on `AtomicU32::fetch_update`: it applies `next_u32` to the value held, retrying its
/// compare-exchange until that succeeds, and returns `Ok(previous)` where `next_u32` gave a new
/// value and `Err(previous)` where it gave none.
#[verifier::external_body]
fn fetch_next_u32(a: &AtomicU32) -> (r: Result<u32, u32>)
    ensures
        match r {
            Ok(prev) => prev < u32::MAX,
            Err(prev) => prev == u32::MAX,
        },
{
    a.fetch_update(Ordering::Relaxed, Ordering::Relaxed, next_u32)
}

impl AtomicUInt for AtomicU32 {
    type UInt = u32;

    open spec fn as_int(v: u32) -> int {
        v as int
    }

    open spec fn max_int() -> int {
        u32::MAX as int
    }

    fn max_value() -> (r: u32) {
        u32::MAX
    }

    fn zero() -> (r: u32) {
        0
    }

    fn is_zero(v: u32) -> (r: bool) {
        v == 0
    }

    fn load(&self, order: Ordering) -> (r: u32) {
        AtomicU32::load(self, order)
    }

    fn swap(&self, val: u32, order: Ordering) -> (r: u32) {
        AtomicU32::swap(self, val, order)
    }

    fn compare_exchange(
        &self,
        current: u32,
        new: u32,
        success: Ordering,
        failure: Ordering,
    ) -> Result<u32, u32> {
        AtomicU32::compare_exchange(self, current, new, success, failure)
    }

    fn saturating_incr(&self) -> (r: u32) {
        let fetched = fetch_next_u32(self);
        proof {
            match fetched {
                Ok(prev) => assert(Self::as_int((prev + 1) as u32) == next_count(
                    prev as int,
                    Self::max_int(),
                )),
                Err(prev) => assert(Self::as_int(prev) == next_count(prev as int, Self::max_int())),
            }
        }
        incremented_u32(fetched)
    }
}

/// The value that a saturating increment returns, given what `fetch_next_u64` reported: one more
/// than the value held where it was incremented, and the value itself where it was the maximum.
pub fn incremented_u64(fetched: Result<u64, u64>) -> (r: u64)
    requires
        fetched matches Ok(prev) ==> prev < u64::MAX,
    ensures
        fetched matches Ok(prev) ==> r == prev + 1,
        fetched matches Err(prev) ==> r == prev,
        fetched matches Ok(prev) ==> r as int == next_count(prev as int, u64::MAX as int),
{
    match fetched {
        Ok(prev) => prev + 1,
        Err(prev) => prev,
    }
}

/// Relies on `AtomicU64::fetch_update`: it applies `next_u64` to the value held, retrying its
/// compare-exchange until that succeeds, and returns `Ok(previous)` where `next_u64` gave a new
/// value and `Err(previous)` where it gave none.
#[verifier::external_body]
fn fetch_next_u64(a: &AtomicU64) -> (r: Result<u64, u64>)
    ensures
        match r {
            Ok(prev) => prev < u64::MAX,
            Err(prev) => prev == u64::MAX,
        },
{
    a.fetch_update(Ordering::Relaxed, Ordering::Relaxed, next_u64)
}

impl AtomicUInt for AtomicU64 {
    type UInt = u64;

    open spec fn as_int(v: u64) -> int {
        v as int
    }

    open spec fn max_int() -> int {
        u64::MAX as int
    }

    fn max_value() -> (r: u64) {
        u64::MAX
    }

    fn zero() -> (r: u64) {
        0
    }

    fn is_zero(v: u64) -> (r: bool) {
        v == 0
    }

    fn load(&self, order: Ordering) -> (r: u64) {
        AtomicU64::load(self, order)
    }

    fn swap(&self, val: u64, order: Ordering) -> (r: u64) {
        AtomicU64::swap(self, val, order)
    }

    fn compare_exchange(
        &self,
        current: u64,
        new: u64,
        success: Ordering,
        failure: Ordering,
    ) -> Result<u64, u64> {
        AtomicU64::compare_exchange(self, current, new, success, failure)
    }

    fn saturating_incr(&self) -> (r: u64) {
        let fetched = fetch_next_u64(self);
        proof {
            match fetched {
                Ok(prev) => assert(Self::as_int((prev + 1) as u64) == next_count(
                    prev as int,
                    Self::max_int(),
                )),
                Err(prev) => assert(Self::as_int(prev) == next_count(prev as int, Self::max_int())),
            }
        }
        incremented_u64(fetched)
    }
}

/// The value of a counter that held `start` after `n` more deliveries with no drain between.
pub open spec fn count_after(start: int, n: nat, max: int) -> int
    decreases n,
{
    if n == 0 {
        start
    } else {
        next_count(count_after(start, (n - 1) as nat, max), max)
    }
}

/// Counting loses nothing short of the maximum: `n` deliveries to a drained counter leave exactly
/// `n`, or the maximum where `n` is past it.
pub proof fn lemma_successive_deliveries_count(n: nat, max: int)
    requires
        max >= 0,
    ensures
        count_after(0, n, max) == if n <= max {
            n as int
        } else {
            max
        },
    decreases n,
{
    if n > 0 {
        lemma_successive_deliveries_count((n - 1) as nat, max);
    }
}

} // verus!
