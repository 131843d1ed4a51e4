use crate::atomics::AtomicUInt;
use crate::receipt::Receipt;
use crate::SignalNumber;
use core::ops::ControlFlow;
use core::sync::atomic::Ordering;
use vstd::prelude::*;

verus! {

/// What the consuming loop does next.
#[derive(Debug, PartialEq, Eq, Structural)]
pub enum LoopAction {
    /// Run the consumer at this index, in declared order, with the current state.
    Consume(usize),
    /// The pass is complete: block on the semaphore until a signal (or a finish) posts it.
    Wait,
    /// The continue-flag is cleared: return the finish value.
    Finish,
}

/// The decision of the consuming loop, given how many consumers there are, which one is next in
/// the current pass, and whether the continue-flag was set when just read.
pub open spec fn action_for(n_consumers: nat, next: nat, continuing: bool) -> LoopAction {
    if !continuing {
        LoopAction::Finish
    } else if next < n_consumers {
        LoopAction::Consume(next as usize)
    } else {
        LoopAction::Wait
    }
}

/// The position of the consuming loop within its current pass over the consumers.
///
/// The loop reads the continue-flag before every consumer and before every wait, so a cleared
/// flag ends it at the next of those points: after the consumer that is running, at most.
#[derive(Debug)]
pub struct ConsumeLoop {
    n_consumers: usize,
    next: usize,
}

impl ConsumeLoop {
    /// How many consumers each pass runs.
    pub closed spec fn n_consumers_spec(&self) -> nat {
        self.n_consumers as nat
    }

    /// The index of the consumer that runs next in the current pass; `n_consumers` once the pass
    /// is complete.
    pub closed spec fn next_spec(&self) -> nat {
        self.next as nat
    }

    /// The position never runs past the end of the pass.
    pub open spec fn wf(&self) -> bool {
        self.next_spec() <= self.n_consumers_spec()
    }

    /// A loop over `n_consumers` consumers, at the start of its first pass.
    pub fn new(n_consumers: usize) -> (r: Self)
        ensures
            r.wf(),
            r.n_consumers_spec() == n_consumers,
            r.next_spec() == 0,
    {
        ConsumeLoop { n_consumers, next: 0 }
    }

    /// How many consumers each pass runs.
    pub fn consumer_count(&self) -> (r: usize)
        ensures
            r == self.n_consumers_spec(),
    {
        self.n_consumers
    }

    /// What to do next, given the value of the continue-flag just read.
    pub fn next_action(&self, continuing: bool) -> (r: LoopAction)
        requires
            self.wf(),
        ensures
            r == action_for(self.n_consumers_spec(), self.next_spec(), continuing),
    {
        if !continuing {
            LoopAction::Finish
        } else if self.next < self.n_consumers {
            LoopAction::Consume(self.next)
        } else {
            LoopAction::Wait
        }
    }

    /// The consumer that `next_action` chose returned `Continue`: the pass moves on to the next.
    pub fn consumed(&mut self)
        requires
            old(self).wf(),
            old(self).next_spec() < old(self).n_consumers_spec(),
        ensures
            final(self).wf(),
            final(self).n_consumers_spec() == old(self).n_consumers_spec(),
            final(self).next_spec() == old(self).next_spec() + 1,
    {
        self.next = self.next + 1;
    }

    /// The consumer that `next_action` chose returned `flow`: on `Continue` the pass moves on to
    /// the next consumer and the new state is handed back; on `Break` the loop is over and its
    /// value is handed back, with the position left as it was.
    pub fn after_consumer<B, C>(&mut self, flow: ControlFlow<B, C>) -> (r: ControlFlow<B, C>)
        requires
            old(self).wf(),
            old(self).next_spec() < old(self).n_consumers_spec(),
        ensures
            r == flow,
            final(self).wf(),
            final(self).n_consumers_spec() == old(self).n_consumers_spec(),
            flow is Continue ==> final(self).next_spec() == old(self).next_spec() + 1,
            flow is Break ==> final(self).next_spec() == old(self).next_spec(),
    {
        if let ControlFlow::Continue(_) = &flow {
            self.consumed();
        }
        flow
    }

    /// The wait on the semaphore returned: a new pass starts from the first consumer.
    pub fn woke(&mut self)
        requires
            old(self).wf(),
        ensures
            final(self).wf(),
            final(self).n_consumers_spec() == old(self).n_consumers_spec(),
            final(self).next_spec() == 0,
    {
        self.next = 0;
    }
}

/// What a consumer step hands to its delegate: a receipt where the drained count is nonzero, and
/// the state back untouched where it is zero.
pub fn receipt_for<A: AtomicUInt, B, C>(
    sig_num: SignalNumber,
    cur_count: A::UInt,
    state: C,
) -> (r: Result<Receipt<A::UInt, B, C>, C>)
    ensures
        A::as_int(cur_count) == 0 ==> r == Err::<Receipt<A::UInt, B, C>, C>(state),
        A::as_int(cur_count) != 0 ==> r == Ok::<Receipt<A::UInt, B, C>, C>(
            Receipt::<A::UInt, B, C> { sig_num, cur_count, flow: ControlFlow::Continue(state) },
        ),
{
    if A::is_zero(cur_count) {
        Err(state)
    } else {
        Ok(Receipt::new(sig_num, cur_count, state))
    }
}

/// The part of a consumer step after the drain: where `cur_count` is nonzero, hands `delegate`
/// a receipt of it that continues with `state`, and returns the control flow that the receipt
/// holds after the delegate returns; where it is zero, returns `Continue(state)` without calling
/// the delegate.
pub fn delegate_count<A: AtomicUInt, B, C, F: FnOnce(&mut Receipt<A::UInt, B, C>)>(
    sig_num: SignalNumber,
    cur_count: A::UInt,
    state: C,
    delegate: F,
) -> (r: ControlFlow<B, C>)
    requires
        forall|receipt: &mut Receipt<A::UInt, B, C>| delegate.requires((receipt,)),
    ensures
        A::as_int(cur_count) == 0 ==> r == ControlFlow::<B, C>::Continue(state),
        A::as_int(cur_count) != 0 ==> exists|receipt: &mut Receipt<A::UInt, B, C>|
            {
                &&& *receipt == Receipt::<A::UInt, B, C> {
                    sig_num,
                    cur_count,
                    flow: ControlFlow::Continue(state),
                }
                &&& delegate.ensures((receipt,), ())
                &&& r == final(receipt).flow
            },
{
    match receipt_for::<A, B, C>(sig_num, cur_count, state) {
        Err(state) => ControlFlow::Continue(state),
        Ok(mut receipt) => {
            delegate(&mut receipt);
            receipt.flow
        },
    }
}

/// One consumer step: takes the count of `counter` (leaving zero there) and hands it to
/// `delegate_count`. Which count it takes depends on the signals delivered, so the contract says
/// what holds of every count; `delegate_count` says exactly what each count gives.
pub fn consume_count_then_delegate<A: AtomicUInt, B, C, F: FnOnce(&mut Receipt<A::UInt, B, C>)>(
    sig_num: SignalNumber,
    counter: &A,
    state: C,
    delegate: F,
) -> (r: ControlFlow<B, C>)
    requires
        forall|receipt: &mut Receipt<A::UInt, B, C>| delegate.requires((receipt,)),
    ensures
        exists|cur_count: A::UInt|
            {
                ||| A::as_int(cur_count) == 0 && r == ControlFlow::<B, C>::Continue(state)
                ||| A::as_int(cur_count) != 0 && exists|receipt: &mut Receipt<A::UInt, B, C>|
                    {
                        &&& *receipt == Receipt::<A::UInt, B, C> {
                            sig_num,
                            cur_count,
                            flow: ControlFlow::Continue(state),
                        }
                        &&& delegate.ensures((receipt,), ())
                        &&& r == final(receipt).flow
                    }
            },
{
    let cur_count = counter.swap(A::zero(), Ordering::Relaxed);
    delegate_count::<A, B, C, F>(sig_num, cur_count, state, delegate)
}

/// Within one pass, with the continue-flag set, the consumers run in declared order: the decision
/// at the start of a pass is the first consumer; after consumer `k` continues, the decision is
/// consumer `k + 1`; and the wait comes only after the last one, never earlier.
pub proof fn lemma_declared_order(lp: ConsumeLoop, k: nat)
    requires
        lp.wf(),
        k < lp.n_consumers_spec(),
    ensures
        action_for(lp.n_consumers_spec(), 0, true) == LoopAction::Consume(0),
        action_for(lp.n_consumers_spec(), k, true) == LoopAction::Consume(k as usize),
        k + 1 < lp.n_consumers_spec() ==> action_for(lp.n_consumers_spec(), k + 1, true)
            == LoopAction::Consume((k + 1) as usize),
        k + 1 == lp.n_consumers_spec() ==> action_for(lp.n_consumers_spec(), k + 1, true)
            == LoopAction::Wait,
        forall|j: nat|
            j < lp.n_consumers_spec() ==> action_for(lp.n_consumers_spec(), j, true)
                != LoopAction::Wait,
{
}

/// Once the continue-flag reads cleared, the loop finishes at its next decision wherever it
/// stands in a pass: it starts no further consumer and never waits on the semaphore again.
pub proof fn lemma_cleared_flag_finishes(lp: ConsumeLoop)
    requires
        lp.wf(),
    ensures
        action_for(lp.n_consumers_spec(), lp.next_spec(), false) == LoopAction::Finish,
        forall|i: nat|
            i <= lp.n_consumers_spec() ==> action_for(lp.n_consumers_spec(), i, false)
                == LoopAction::Finish,
{
}

/// How a semaphore operation ended, as the protocol judges it.
#[derive(Debug, PartialEq, Eq, Structural)]
pub enum SemOutcome {
    /// It succeeded.
    Done,
    /// It failed in a way that the protocol absorbs: a post past the semaphore's maximum (the
    /// semaphore stays high, so waiters never block) or a wait interrupted by a signal (which is
    /// retried).
    Absorbed,
    /// It failed in a way that breaks an invariant: the process must abort.
    Broken,
}

/// The outcome of posting the semaphore, given whether the post succeeded, the error number it
/// left, and the error number that means the semaphore's maximum would be exceeded.
pub fn post_outcome(posted: bool, errno: i32, overflow_errno: i32) -> (r: SemOutcome)
    ensures
        posted ==> r == SemOutcome::Done,
        !posted && errno == overflow_errno ==> r == SemOutcome::Absorbed,
        !posted && errno != overflow_errno ==> r == SemOutcome::Broken,
{
    if posted {
        SemOutcome::Done
    } else if errno == overflow_errno {
        SemOutcome::Absorbed
    } else {
        SemOutcome::Broken
    }
}

/// The outcome of waiting on the semaphore, given whether the loop masks signals, whether the
/// wait succeeded, the error number it left, and the error number of an interrupted call. A
/// masked thread is never interrupted, so there any failure breaks the invariant.
pub fn wait_outcome(do_mask: bool, woke: bool, errno: i32, interrupted_errno: i32) -> (r:
    SemOutcome)
    ensures
        woke ==> r == SemOutcome::Done,
        !woke && do_mask ==> r == SemOutcome::Broken,
        !woke && !do_mask && errno == interrupted_errno ==> r == SemOutcome::Absorbed,
        !woke && !do_mask && errno != interrupted_errno ==> r == SemOutcome::Broken,
{
    if woke {
        SemOutcome::Done
    } else if !do_mask && errno == interrupted_errno {
        SemOutcome::Absorbed
    } else {
        SemOutcome::Broken
    }
}

} // verus!
