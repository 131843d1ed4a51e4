use super::signals_channel::Sender;
use crate::receipt::Receipt;
use core::ops::ControlFlow;
use vstd::prelude::*;

verus! {

/// A message on the controller channel, which tells the receipts thread of a change of
/// installation. (The controller channel is not the notifications channel.)
pub enum Control<N> {
    /// The handling was installed, with this channel to send notifications on.
    Installed { notify: N },
    /// The handling was uninstalled.
    Uninstalled,
}

/// What a look at the controller channel found.
pub enum Received<N> {
    /// A message.
    Message(Control<N>),
    /// No message is waiting.
    Empty,
    /// The controlling side is gone: the thread is to finish.
    Disconnected,
}

/// What the receipts thread's callback and delegates have, by whether the handling is installed.
/// `N` is the notifications channel and `K` the receiving end of the controller channel.
pub enum DelegatesState<N, K> {
    /// The handling is uninstalled: the thread blocks until told what to do.
    Dormant { controller: K },
    /// The handling is installed: receipts are turned into notifications.
    Active { notify: N, controller: K },
}

/// What the receipts thread does after a look at its controller channel.
pub enum ControlStep<N, K> {
    /// Go on consuming with this state.
    Proceed(DelegatesState<N, K>),
    /// Block on the controller channel until a message comes, and decide again as `Dormant`.
    Block { controller: K },
    /// Finish the thread.
    Finish,
}

/// The decision of the receipts thread's per-pass callback. While active, a look finds most
/// often nothing, and the thread goes on; an uninstall drops the notifications channel (which
/// disconnects it) and makes the thread block until it is installed again; an install hands it
/// the new channel; and a disconnected controller, in either state, finishes the thread.
pub fn control<N, K>(state: DelegatesState<N, K>, received: Received<N>) -> (r: ControlStep<N, K>)
    ensures
        received is Disconnected ==> r is Finish,
        received is Empty ==> match state {
            DelegatesState::Active { notify, controller } => r == ControlStep::Proceed(
                DelegatesState::Active { notify, controller },
            ),
            DelegatesState::Dormant { controller } => r == ControlStep::<N, K>::Block {
                controller,
            },
        },
        match received {
            Received::Message(Control::Installed { notify }) => r == ControlStep::Proceed(
                DelegatesState::Active { notify, controller: controller_of(state) },
            ),
            Received::Message(Control::Uninstalled) => r == ControlStep::<N, K>::Block {
                controller: controller_of(state),
            },
            _ => true,
        },
{
    match (state, received) {
        (_, Received::Disconnected) => ControlStep::Finish,
        (DelegatesState::Active { notify, controller }, Received::Empty) => ControlStep::Proceed(
            DelegatesState::Active { notify, controller },
        ),
        (DelegatesState::Dormant { controller }, Received::Empty) => ControlStep::Block {
            controller,
        },
        (
            DelegatesState::Active { controller, .. },
            Received::Message(Control::Installed { notify }),
        ) => ControlStep::Proceed(DelegatesState::Active { notify, controller }),
        (
            DelegatesState::Dormant { controller },
            Received::Message(Control::Installed { notify }),
        ) => ControlStep::Proceed(DelegatesState::Active { notify, controller }),
        (DelegatesState::Active { controller, .. }, Received::Message(Control::Uninstalled)) => {
            ControlStep::Block { controller }
        },
        (DelegatesState::Dormant { controller }, Received::Message(Control::Uninstalled)) => {
            ControlStep::Block { controller }
        },
    }
}

/// The controller channel held in either state.
pub open spec fn controller_of<N, K>(state: DelegatesState<N, K>) -> K {
    match state {
        DelegatesState::Dormant { controller } => controller,
        DelegatesState::Active { controller, .. } => controller,
    }
}

/// The receipts thread's delegate for every signal: sends one notification of the signal on the
/// active channel, however many deliveries the receipt counts, and ignores a failed send. The
/// callback runs before the delegates in each pass and blocks while dormant, so a delegate is
/// only ever handed an active state. The receipt's control flow is left as it was.
pub fn handler<N: Sender, K>(receipt: &mut Receipt<u64, (), DelegatesState<N, K>>)
    requires
        old(receipt).flow matches ControlFlow::Continue(DelegatesState::Active { .. }),
    ensures
        *final(receipt) == *old(receipt),
{
    let receipt = &*receipt;
    match receipt.get_state_ref() {
        DelegatesState::Active { notify, .. } => {
            let _ = notify.send(receipt.sig_num);
        },
        DelegatesState::Dormant { .. } => {},
    }
}

} // verus!
