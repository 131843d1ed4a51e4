use crate::SignalNumber;
use core::marker::PhantomData;
use std::sync::mpsc;
use vstd::prelude::*;

verus! {

#[verifier::external_type_specification]
#[verifier::external_body]
#[verifier::reject_recursive_types(T)]
pub struct ExMpscSender<T>(std::sync::mpsc::Sender<T>);

#[verifier::external_type_specification]
#[verifier::external_body]
#[verifier::reject_recursive_types(T)]
pub struct ExMpscSyncSender<T>(std::sync::mpsc::SyncSender<T>);

#[verifier::external_type_specification]
#[verifier::external_body]
#[verifier::reject_recursive_types(T)]
pub struct ExMpscReceiver<T>(std::sync::mpsc::Receiver<T>);

/// The way in which a `Sender` chose to fail. With any of these, no notification was sent.
#[derive(Copy, Clone, Debug, PartialEq, Eq, Structural)]
pub enum SendError {
    /// The channel is disconnected.
    Disconnected,
    /// The channel was full and sending would have blocked.
    Full,
    /// The implementer chose not to send, for whatever reason.
    Ignored,
}

impl SendError {
    /// A description of the error for people.
    pub fn description(&self) -> (r: &'static str)
        ensures
            *self == SendError::Disconnected ==> r@
                == "signals-notifications channel is disconnected"@,
            *self == SendError::Full ==> r@
                == "signals-notifications channel was full, sending would've blocked"@,
            *self == SendError::Ignored ==> r@ == "signal wasn't sent, due to implementer choice"@,
    {
        match self {
            SendError::Disconnected => "signals-notifications channel is disconnected",
            SendError::Full => "signals-notifications channel was full, sending would've blocked",
            SendError::Ignored => "signal wasn't sent, due to implementer choice",
        }
    }
}

/// The sending side of a channel of notifications, bounded or not.
///
/// `send` may block where a bounded channel is full, or return `SendError::Full` where it must
/// not block. It may send its own representation of the signal number instead of the number, and
/// may ignore numbers that it cannot represent, returning `SendError::Ignored`. It must stay
/// correct when interrupted by the delivery of a signal.
pub trait Sender: Send + 'static {
    /// Sends a notification of the signal `sig_num` on the channel.
    fn send(&self, sig_num: SignalNumber) -> Result<(), SendError>;
}

/// How sending on a std channel ends: `None` where the signal number has no representation in
/// the channel's item type, else whether the channel took the item.
pub fn send_result(delivered: Option<bool>) -> (r: Result<(), SendError>)
    ensures
        delivered is None ==> r == Err::<(), SendError>(SendError::Ignored),
        delivered == Some(false) ==> r == Err::<(), SendError>(SendError::Disconnected),
        delivered == Some(true) ==> r is Ok,
{
    match delivered {
        None => Err(SendError::Ignored),
        Some(false) => Err(SendError::Disconnected),
        Some(true) => Ok(()),
    }
}

/// Relies on `TryInto::try_into` from `SignalNumber`: the representation of `sig_num` in `N`,
/// where `N` has one.
#[verifier::external_body]
fn represent<N>(sig_num: SignalNumber) -> Option<N> where SignalNumber: TryInto<N> {
    sig_num.try_into().ok()
}

/// Relies on `mpsc::Sender::send`: whether the receiving end took `item` (it fails only where
/// that end is disconnected).
#[verifier::external_body]
fn send_unbounded<N>(sender: &mpsc::Sender<N>, item: N) -> bool {
    sender.send(item).is_ok()
}

/// Relies on `mpsc::SyncSender::send`: whether the receiving end took `item`, after blocking
/// while the channel is full (it fails only where that end is disconnected).
#[verifier::external_body]
fn send_bounded<N>(sender: &mpsc::SyncSender<N>, item: N) -> bool {
    sender.send(item).is_ok()
}

/// Relies on `mpsc::channel`: the two ends of a new unbounded channel.
#[verifier::external_body]
fn new_unbounded<N>() -> (mpsc::Sender<N>, mpsc::Receiver<N>) {
    mpsc::channel()
}

/// Relies on `mpsc::sync_channel`: the two ends of a new channel that holds up to `bound` items.
#[verifier::external_body]
fn new_bounded<N>(bound: usize) -> (mpsc::SyncSender<N>, mpsc::Receiver<N>) {
    mpsc::sync_channel(bound)
}

/// Sending never blocks on this channel. A signal number without a representation in `N` is
/// not sent, and gives `SendError::Ignored`.
impl<N: Send + 'static> Sender for mpsc::Sender<N> where SignalNumber: TryInto<N> {
    fn send(&self, sig_num: SignalNumber) -> Result<(), SendError> {
        let delivered = match represent::<N>(sig_num) {
            Some(item) => Some(send_unbounded(self, item)),
            None => None,
        };
        send_result(delivered)
    }
}

/// Sending blocks while this channel is full, so that no signal is missed. A signal number
/// without a representation in `N` is not sent, and gives `SendError::Ignored`.
impl<N: Send + 'static> Sender for mpsc::SyncSender<N> where SignalNumber: TryInto<N> {
    fn send(&self, sig_num: SignalNumber) -> Result<(), SendError> {
        let delivered = match represent::<N>(sig_num) {
            Some(item) => Some(send_bounded(self, item)),
            None => None,
        };
        send_result(delivered)
    }
}

/// The receiving end of a premade notifications channel, which knows the facility `C` that
/// created it. It cannot be cloned, so giving it up to uninstall or finish disconnects the
/// channel.
#[verifier::reject_recursive_types(N)]
pub struct Receiver<N, C> {
    inner: mpsc::Receiver<N>,
    creator: PhantomData<C>,
}

impl<N, C> AsRef<mpsc::Receiver<N>> for Receiver<N, C> {
    fn as_ref(&self) -> &mpsc::Receiver<N> {
        &self.inner
    }
}

/// The sending end that goes with a `Receiver`.
#[verifier::reject_recursive_types(N)]
pub enum PremadeSender<N> {
    /// A channel that holds a bounded number of notifications.
    Bounded(mpsc::SyncSender<N>),
    /// A channel without a bound.
    Unbounded(mpsc::Sender<N>),
}

impl<N: Send + 'static> Sender for PremadeSender<N> where SignalNumber: TryInto<N> {
    fn send(&self, sig_num: SignalNumber) -> Result<(), SendError> {
        let delivered = match represent::<N>(sig_num) {
            Some(item) => Some(
                match self {
                    PremadeSender::Bounded(s) => send_bounded(s, item),
                    PremadeSender::Unbounded(s) => send_unbounded(s, item),
                },
            ),
            None => None,
        };
        send_result(delivered)
    }
}

/// A new premade notifications channel that holds up to `bound` notifications.
pub fn bounded<N, C>(bound: usize) -> (r: (PremadeSender<N>, Receiver<N, C>))
    ensures
        r.0 is Bounded,
{
    let (sender, receiver) = new_bounded(bound);
    (PremadeSender::Bounded(sender), Receiver { inner: receiver, creator: PhantomData })
}

/// A new premade notifications channel without a bound.
pub fn unbounded<N, C>() -> (r: (PremadeSender<N>, Receiver<N, C>))
    ensures
        r.0 is Unbounded,
{
    let (sender, receiver) = new_unbounded();
    (PremadeSender::Unbounded(sender), Receiver { inner: receiver, creator: PhantomData })
}

} // verus!
