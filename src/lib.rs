//! Race-free delivery of asynchronous signals to ordinary code: a saturating receipt counter
//! per signal, a consuming loop that drains the counters in a declared order and hands each
//! nonzero count to a delegate, and a channel-notification facility built on top of it.
//!
//! The parts that touch the operating system (the interrupt-context handler itself, the
//! semaphore, the signal dispositions and the threads) are thin and live with the program that
//! uses this library; everything that decides what happens is here, with its contract.
use vstd::prelude::*;

pub mod atomics;
pub mod channel_notify_facility;
pub mod consume;
pub mod premade;
pub mod receipt;

pub use atomics::AtomicUInt;
pub use consume::{consume_count_then_delegate, ConsumeLoop, LoopAction};
pub use premade::{Premade, Sealed};
pub use receipt::Receipt;

verus! {

/// The type of a signal number as defined by C (C17 7.14).
pub type SignalNumber = i32;

} // verus!
