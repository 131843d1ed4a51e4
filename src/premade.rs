use core::sync::atomic::{AtomicBool, Ordering};
use vstd::prelude::*;

verus! {

/// Seals `Premade`: only a registry declared for a fixed set of signal numbers implements it.
pub trait Sealed {
}

/// The operations of a registry declared for a fixed set of signal numbers: one receipt counter
/// per signal, one semaphore, one continue-flag, and a consuming loop that dispatches to the
/// declared delegates in declared order.
pub trait Premade: Sealed {
    /// The type of the state value that is passed in and out of all delegates during processing.
    type Continue;
    /// The type of the final value that the processing finishes with.
    type Break;

    /// The flag that tells the consuming loop whether to go on or to finish.
    fn continue_flag() -> &'static AtomicBool;

    /// Like `install_all_handlers_with`, masking signals during the handler and restarting
    /// interrupted calls.
    fn install_all_handlers() {
        Self::install_all_handlers_with(true, true);
    }

    /// Resets every counter to zero and the continue-flag to set, and only then installs the
    /// handler for every declared signal number, so that no handler ever sees state from before.
    /// The semaphore is not reset: a count left over only causes harmless extra passes.
    fn install_all_handlers_with(mask: bool, restart: bool) {
        Self::reset_all_counters();
        Self::reset_continue_flag();
        Self::install_handlers(mask, restart);
    }

    /// Installs the handler for every declared signal number: if `mask`, with the usual signals
    /// masked while it runs; if `restart`, with interrupted calls restarted.
    fn install_handlers(mask: bool, restart: bool);

    /// Restores the default disposition of every declared signal number.
    fn uninstall_all_handlers();

    /// Assigns zero to every counter of the declared signal numbers.
    fn reset_all_counters();

    /// Sets the continue-flag.
    fn reset_continue_flag() {
        Self::continue_flag().store(true, Ordering::Relaxed);
    }

    /// Runs the consuming loop with every usual signal masked for the current thread, starting
    /// from the default state and finishing with the default value.
    fn consume_loop() -> (r: Self::Break) where Self::Continue: Default, Self::Break: Default
        ensures
            exists|s: Self::Continue, f: Self::Break|
                {
                    &&& call_ensures(Self::Continue::default, (), s)
                    &&& call_ensures(Self::Break::default, (), f)
                    &&& call_ensures(Self::consume_loop_with, (true, s, f), r)
                },
    {
        Self::consume_loop_with(true, Self::Continue::default(), Self::Break::default())
    }

    /// Runs the consuming loop with every signal unmasked for the current thread, starting from
    /// the default state and finishing with the default value.
    fn consume_loop_no_mask() -> (r: Self::Break) where Self::Continue: Default, Self::Break: Default
        ensures
            exists|s: Self::Continue, f: Self::Break|
                {
                    &&& call_ensures(Self::Continue::default, (), s)
                    &&& call_ensures(Self::Break::default, (), f)
                    &&& call_ensures(Self::consume_loop_with, (false, s, f), r)
                },
    {
        Self::consume_loop_with(false, Self::Continue::default(), Self::Break::default())
    }

    /// Runs the consuming loop: masked or not for the current thread, from `state`, and
    /// returning `finish` where the continue-flag ends it.
    fn consume_loop_with(do_mask: bool, state: Self::Continue, finish: Self::Break) -> Self::Break;

    /// Posts the semaphore once, if it is or can quickly be initialized, so that a blocked
    /// consuming loop wakes.
    fn wake_consumer();

    /// Finishes all processing: uninstalls the handlers, clears the continue-flag, and then wakes
    /// the consuming loop so that it sees the flag.
    fn finish() {
        Self::uninstall_all_handlers();
        Self::continue_flag().store(false, Ordering::Relaxed);
        Self::wake_consumer();
    }
}

} // verus!
