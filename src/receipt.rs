use crate::SignalNumber;
use core::cmp::Ordering;
use core::ops::ControlFlow;
use vstd::pervasive::unreached;
use vstd::std_specs::cmp::{OrdSpec, PartialOrdSpecImpl};
use vstd::prelude::*;

verus! {

/// Receipt of delivery of a signal, as handed to a delegate.
///
/// `B` is the type of the final value that the processing finishes with. `C` is the type of the
/// state value that is passed in and out of all delegates during processing.
#[derive(Debug, Eq, PartialEq, Hash)]
#[non_exhaustive]
pub struct Receipt<U, B, C> {
    /// Signal number that was received.
    pub sig_num: SignalNumber,
    /// How many times the signal was received since its receipts were last consumed.
    pub cur_count: U,
    /// Whether the processing of later receipts continues (with the state held in `Continue`) or
    /// finishes (with the value held in `Break`) after the current delegate returns.
    pub flow: ControlFlow<B, C>,
}

/// How two control-flow slots order: `Continue` before `Break`, and by payload within a variant.
pub open spec fn flow_order<B: Ord + OrdSpec, C: Ord + OrdSpec>(
    a: ControlFlow<B, C>,
    b: ControlFlow<B, C>,
) -> Ordering {
    match (a, b) {
        (ControlFlow::Continue(c1), ControlFlow::Continue(c2)) => c1.cmp_spec(&c2),
        (ControlFlow::Continue(_), ControlFlow::Break(_)) => Ordering::Less,
        (ControlFlow::Break(_), ControlFlow::Continue(_)) => Ordering::Greater,
        (ControlFlow::Break(b1), ControlFlow::Break(b2)) => b1.cmp_spec(&b2),
    }
}

/// How two integers order.
pub open spec fn int_order(a: int, b: int) -> Ordering {
    if a < b {
        Ordering::Less
    } else if a == b {
        Ordering::Equal
    } else {
        Ordering::Greater
    }
}

/// The total order of receipts: by signal number, then by count, then by control flow.
pub open spec fn receipt_order<U: Ord + OrdSpec, B: Ord + OrdSpec, C: Ord + OrdSpec>(
    a: Receipt<U, B, C>,
    b: Receipt<U, B, C>,
) -> Ordering {
    match int_order(a.sig_num as int, b.sig_num as int) {
        Ordering::Equal => match a.cur_count.cmp_spec(&b.cur_count) {
            Ordering::Equal => flow_order(a.flow, b.flow),
            ord => ord,
        },
        ord => ord,
    }
}

impl<U, B, C> Receipt<U, B, C> {
    /// A receipt of `cur_count` deliveries of `sig_num`, whose processing continues with
    /// `state` unless its delegate decides otherwise.
    pub fn new(sig_num: SignalNumber, cur_count: U, state: C) -> (r: Self)
        ensures
            r.sig_num == sig_num,
            r.cur_count == cur_count,
            r.flow == ControlFlow::<B, C>::Continue(state),
    {
        Receipt { sig_num, cur_count, flow: ControlFlow::Continue(state) }
    }

    /// Whether the slot still holds the continuing state.
    pub open spec fn is_continuing(&self) -> bool {
        self.flow is Continue
    }

    /// The continuing state held in the slot.
    pub open spec fn state(&self) -> C
        recommends
            self.is_continuing(),
    {
        match self.flow {
            ControlFlow::Continue(s) => s,
            ControlFlow::Break(_) => arbitrary(),
        }
    }

    /// Causes the processing to finish with `B`'s default value.
    pub fn break_loop(&mut self) where B: Default
        ensures
            exists|v: B|
                call_ensures(B::default, (), v) && final(self).flow == ControlFlow::<B, C>::Break(
                    v,
                ),
            final(self).sig_num == old(self).sig_num,
            final(self).cur_count == old(self).cur_count,
    {
        self.break_loop_with(B::default());
    }

    /// Causes the processing to finish with the given value.
    pub fn break_loop_with(&mut self, val: B)
        ensures
            final(self).flow == ControlFlow::<B, C>::Break(val),
            final(self).sig_num == old(self).sig_num,
            final(self).cur_count == old(self).cur_count,
    {
        self.flow = ControlFlow::Break(val);
    }

    /// The state value held in the slot. Only a receipt that still continues has one: a
    /// delegate is always handed such a receipt.
    pub fn get_state_ref(&self) -> (r: &C)
        requires
            self.is_continuing(),
        ensures
            *r == self.state(),
    {
        match &self.flow {
            ControlFlow::Continue(state) => state,
            ControlFlow::Break(_) => unreached(),
        }
    }

    /// A mutable reference to the state value held in the slot. Only a receipt that still
    /// continues has one.
    pub fn get_state_mut(&mut self) -> (r: &mut C)
        requires
            old(self).is_continuing(),
        ensures
            *r == old(self).state(),
            final(self).is_continuing(),
            final(self).state() == *final(r),
            final(self).sig_num == old(self).sig_num,
            final(self).cur_count == old(self).cur_count,
    {
        match &mut self.flow {
            ControlFlow::Continue(state) => state,
            ControlFlow::Break(_) => unreached(),
        }
    }

    /// Applies `updater` to the state value, which it may change in place.
    pub fn update_state<F: FnOnce(&mut C)>(&mut self, updater: F)
        requires
            old(self).is_continuing(),
            forall|s: &mut C| updater.requires((s,)),
        ensures
            final(self).is_continuing(),
            exists|s: &mut C|
                {
                    &&& *s == old(self).state()
                    &&& updater.ensures((s,), ())
                    &&& final(self).state() == *final(s)
                },
            final(self).sig_num == old(self).sig_num,
            final(self).cur_count == old(self).cur_count,
    {
        updater(self.get_state_mut());
    }

    /// Causes the processing to continue with the given state value.
    pub fn set_state(&mut self, val: C)
        ensures
            final(self).flow == ControlFlow::<B, C>::Continue(val),
            final(self).sig_num == old(self).sig_num,
            final(self).cur_count == old(self).cur_count,
    {
        self.flow = ControlFlow::Continue(val);
    }

    /// Replaces the state with `val` and returns the state held before.
    pub fn replace_state(&mut self, val: C) -> (r: C)
        requires
            old(self).is_continuing(),
        ensures
            r == old(self).state(),
            final(self).flow == ControlFlow::<B, C>::Continue(val),
            final(self).sig_num == old(self).sig_num,
            final(self).cur_count == old(self).cur_count,
    {
        let mut prev = ControlFlow::Continue(val);
        core::mem::swap(&mut self.flow, &mut prev);
        match prev {
            ControlFlow::Continue(state) => state,
            ControlFlow::Break(_) => unreached(),
        }
    }

    /// Returns the state and leaves `C`'s default value in its place.
    pub fn take_state(&mut self) -> (r: C) where C: Default
        requires
            old(self).is_continuing(),
        ensures
            r == old(self).state(),
            exists|v: C|
                call_ensures(C::default, (), v) && final(self).flow == ControlFlow::<B, C>::Continue(
                    v,
                ),
            final(self).sig_num == old(self).sig_num,
            final(self).cur_count == old(self).cur_count,
    {
        self.replace_state(C::default())
    }
}

impl<U: Ord + OrdSpec, B: Ord + OrdSpec, C: Ord + OrdSpec> Receipt<U, B, C> {
    /// The total order of receipts: by signal number, then by count, then by control flow, where
    /// `Continue` comes before `Break` whatever their payloads.
    pub fn compare(&self, other: &Self) -> (r: Ordering)
        ensures
            U::obeys_cmp_spec() && B::obeys_cmp_spec() && C::obeys_cmp_spec() ==> r
                == receipt_order(*self, *other),
    {
        if self.sig_num < other.sig_num {
            return Ordering::Less;
        } else if self.sig_num > other.sig_num {
            return Ordering::Greater;
        }
        match self.cur_count.cmp(&other.cur_count) {
            Ordering::Equal => {},
            ord => {
                return ord;
            },
        }
        match (&self.flow, &other.flow) {
            (ControlFlow::Continue(c1), ControlFlow::Continue(c2)) => c1.cmp(c2),
            (ControlFlow::Continue(_), ControlFlow::Break(_)) => Ordering::Less,
            (ControlFlow::Break(_), ControlFlow::Continue(_)) => Ordering::Greater,
            (ControlFlow::Break(b1), ControlFlow::Break(b2)) => b1.cmp(b2),
        }
    }
}

impl<U: Ord + OrdSpec, B: Ord + OrdSpec, C: Ord + OrdSpec> PartialOrd for Receipt<U, B, C> {
    fn partial_cmp(&self, other: &Self) -> (r: Option<Ordering>) {
        Some(self.compare(other))
    }
}

impl<U: Ord + OrdSpec, B: Ord + OrdSpec, C: Ord + OrdSpec> PartialOrdSpecImpl for Receipt<U, B, C> {
    open spec fn obeys_partial_cmp_spec() -> bool {
        U::obeys_cmp_spec() && B::obeys_cmp_spec() && C::obeys_cmp_spec()
    }

    open spec fn partial_cmp_spec(&self, other: &Self) -> Option<Ordering> {
        Some(receipt_order(*self, *other))
    }
}

} // verus!
