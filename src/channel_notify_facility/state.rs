use super::signals_channel::{self, Receiver, Sender};
use crate::premade::Premade;
use crate::SignalNumber;
use std::io;
use vstd::prelude::*;
use vstd::std_specs::convert::FromSpecImpl;

verus! {

#[verifier::external_type_specification]
#[verifier::external_body]
pub struct ExIoError(std::io::Error);

/// Why the receipts thread could not be made.
#[derive(Debug)]
pub enum NewError {
    /// The semaphore could not be initialized.
    SemaphoreInitFailed(io::Error),
    /// The operating system did not create the thread.
    ThreadCreateFailed(io::Error),
}

/// The thread that consumes receipts for a facility, as the state machine drives it.
pub trait ReceiptsWorker: Sized {
    /// Creates the thread, blocked until `installed` hands it a notifications channel.
    fn spawn() -> Result<Self, NewError>;

    /// Whether the thread is still running.
    fn is_alive(&self) -> bool;

    /// Tells the thread that the handling is installed, with the channel to notify on.
    fn installed<T: Sender>(&self, notify: T);

    /// Tells the thread that the handling is uninstalled, and wakes it to see that.
    fn uninstalled(&self);

    /// Finishes the registry, disconnects the controller channel, and joins the thread.
    fn finish(self);
}

/// Whether the handling is, or was, installed.
pub enum Inner<W> {
    /// The handling is not installed at all.
    Nothing,
    /// The handling is installed. `is_encapsulated` tells which method must uninstall and finish
    /// it: the one that takes the premade receiver, or the one for an outside channel.
    Installed { receipts_thread: W, is_encapsulated: bool },
    /// The handling was uninstalled after being installed. The same thread is kept, blocked, in
    /// case the handling is installed again.
    Dormant { receipts_thread: W },
}

/// Error of installing.
#[derive(Debug)]
pub enum InstallError<T> {
    /// The handling is already installed. Holds the channel that was not used (`()` for the
    /// premade channel).
    AlreadyInstalled { unused_notify: T },
    /// The receipts thread could not be made.
    ThreadCreateFailed(NewError),
}

/// Error of uninstalling.
#[derive(Debug, PartialEq, Eq, Structural)]
pub enum UninstallError {
    /// The handling is already uninstalled.
    AlreadyUninstalled,
    /// The handling was installed by the other method.
    WrongMethod,
}

/// Error of finishing.
#[derive(Debug, PartialEq, Eq, Structural)]
pub enum FinishError {
    /// The handling is already finished.
    AlreadyFinished,
    /// The handling was installed by the other method.
    WrongMethod,
}

impl NewError {
    /// A description of the error for people.
    pub fn description(&self) -> (r: &'static str)
        ensures
            self is SemaphoreInitFailed ==> r@ == "semaphore initialization failed"@,
            self is ThreadCreateFailed ==> r@ == "thread creation failed at OS level"@,
    {
        match self {
            NewError::SemaphoreInitFailed(_) => "semaphore initialization failed",
            NewError::ThreadCreateFailed(_) => "thread creation failed at OS level",
        }
    }
}

impl<T> InstallError<T> {
    /// A description of the error for people.
    pub fn description(&self) -> (r: &'static str)
        ensures
            self is AlreadyInstalled ==> r@ == "already installed signal handling"@,
            self is ThreadCreateFailed ==> r@ == "failed to create internal thread"@,
    {
        match self {
            InstallError::AlreadyInstalled { .. } => "already installed signal handling",
            InstallError::ThreadCreateFailed(_) => "failed to create internal thread",
        }
    }
}

impl UninstallError {
    /// A description of the error for people.
    pub fn description(&self) -> (r: &'static str)
        ensures
            *self == UninstallError::AlreadyUninstalled ==> r@
                == "already uninstalled signal handling"@,
            *self == UninstallError::WrongMethod ==> r@
                == "uninstall method wrong for how installed"@,
    {
        match self {
            UninstallError::AlreadyUninstalled => "already uninstalled signal handling",
            UninstallError::WrongMethod => "uninstall method wrong for how installed",
        }
    }
}

impl FinishError {
    /// A description of the error for people.
    pub fn description(&self) -> (r: &'static str)
        ensures
            *self == FinishError::AlreadyFinished ==> r@ == "already finished signal handling"@,
            *self == FinishError::WrongMethod ==> r@ == "finish method wrong for how installed"@,
    {
        match self {
            FinishError::AlreadyFinished => "already finished signal handling",
            FinishError::WrongMethod => "finish method wrong for how installed",
        }
    }
}

impl<T: Sender> From<InstallError<T>> for InstallError<()> {
    fn from(value: InstallError<T>) -> Self {
        match value {
            InstallError::AlreadyInstalled { .. } => InstallError::AlreadyInstalled {
                unused_notify: (),
            },
            InstallError::ThreadCreateFailed(e) => InstallError::ThreadCreateFailed(e),
        }
    }
}

impl<T: Sender> FromSpecImpl<InstallError<T>> for InstallError<()> {
    open spec fn obeys_from_spec() -> bool {
        true
    }

    open spec fn from_spec(value: InstallError<T>) -> Self {
        match value {
            InstallError::AlreadyInstalled { .. } => InstallError::AlreadyInstalled {
                unused_notify: (),
            },
            InstallError::ThreadCreateFailed(e) => InstallError::ThreadCreateFailed(e),
        }
    }
}

/// How an uninstall error bears on finishing: finishing goes on where the handling was already
/// uninstalled, and fails where the method was the wrong one.
pub open spec fn finish_result_of(value: UninstallError) -> Result<(), FinishError> {
    match value {
        UninstallError::AlreadyUninstalled => Ok(()),
        UninstallError::WrongMethod => Err(FinishError::WrongMethod),
    }
}

impl From<UninstallError> for Result<(), FinishError> {
    fn from(value: UninstallError) -> Self {
        match value {
            UninstallError::AlreadyUninstalled => Ok(()),
            UninstallError::WrongMethod => Err(FinishError::WrongMethod),
        }
    }
}

impl FromSpecImpl<UninstallError> for Result<(), FinishError> {
    open spec fn obeys_from_spec() -> bool {
        true
    }

    open spec fn from_spec(value: UninstallError) -> Self {
        finish_result_of(value)
    }
}

/// What installing (with `notify`, by the method that `is_encapsulated` names) does from `before`:
/// refuse where already installed, handing `notify` back; else end installed, keeping the dormant
/// thread only where it was found alive and making a new one otherwise; or, where no thread
/// could be made, fail and end with nothing installed.
pub open spec fn install_spec<W: ReceiptsWorker, T>(
    before: Inner<W>,
    after: Inner<W>,
    r: Result<(), InstallError<T>>,
    notify: T,
    is_encapsulated: bool,
) -> bool {
    match before {
        Inner::Installed { .. } => r == Err::<(), InstallError<T>>(
            InstallError::AlreadyInstalled { unused_notify: notify },
        ) && after == before,
        Inner::Dormant { receipts_thread } => {
            ||| W::is_alive.ensures((&receipts_thread,), true) && r is Ok && after
                == Inner::Installed { receipts_thread, is_encapsulated }
            ||| W::is_alive.ensures((&receipts_thread,), false) && spawned_spec(after, r, is_encapsulated)
        },
        Inner::Nothing => spawned_spec(after, r, is_encapsulated),
    }
}

/// The outcome of an install with a premade channel, without its receiving end.
pub open spec fn without_receiver<N, C>(r: Result<Receiver<N, C>, InstallError<()>>) -> Result<
    (),
    InstallError<()>,
> {
    match r {
        Ok(_) => Ok(()),
        Err(e) => Err(e),
    }
}

/// The end of an install that had to make a new thread: installed with it, or, where it could
/// not be made, nothing installed and the error.
pub open spec fn spawned_spec<W, T>(
    after: Inner<W>,
    r: Result<(), InstallError<T>>,
    is_encapsulated: bool,
) -> bool {
    ||| r is Ok && (after matches Inner::Installed { is_encapsulated: e, .. } && e
        == is_encapsulated)
    ||| (r matches Err(InstallError::ThreadCreateFailed(_))) && after is Nothing
}

/// What uninstalling by the method that `expect_encapsulated` names does from `before`: where the
/// handling is installed by that method, succeed and keep the thread dormant where it was found
/// alive (nothing is kept otherwise); where it is installed by the other method, refuse; where it
/// is not installed, report that.
pub open spec fn uninstall_spec<W: ReceiptsWorker>(
    before: Inner<W>,
    after: Inner<W>,
    r: Result<(), UninstallError>,
    expect_encapsulated: bool,
) -> bool {
    match before {
        Inner::Installed { receipts_thread, is_encapsulated } => if is_encapsulated
            == expect_encapsulated {
            &&& r is Ok
            &&& {
                ||| W::is_alive.ensures((&receipts_thread,), true) && after == Inner::Dormant {
                    receipts_thread,
                }
                ||| W::is_alive.ensures((&receipts_thread,), false) && after is Nothing
            }
        } else {
            r == Err::<(), UninstallError>(UninstallError::WrongMethod) && after == before
        },
        _ => r == Err::<(), UninstallError>(UninstallError::AlreadyUninstalled) && after == before,
    }
}

/// What finishing by the method that `expect_encapsulated` names does from `before`: where the
/// handling is installed by the other method, refuse and change nothing; else end with nothing
/// installed, successfully where a thread was there to finish, and with `AlreadyFinished` where
/// none was.
pub open spec fn finish_spec<W: ReceiptsWorker>(
    before: Inner<W>,
    after: Inner<W>,
    r: Result<(), FinishError>,
    expect_encapsulated: bool,
) -> bool {
    match before {
        Inner::Installed { receipts_thread, is_encapsulated } => if is_encapsulated
            == expect_encapsulated {
            &&& after is Nothing
            &&& {
                ||| W::is_alive.ensures((&receipts_thread,), true) && r is Ok
                ||| W::is_alive.ensures((&receipts_thread,), false) && r == Err::<(), FinishError>(
                    FinishError::AlreadyFinished,
                )
            }
        } else {
            r == Err::<(), FinishError>(FinishError::WrongMethod) && after == before
        },
        Inner::Dormant { .. } => r is Ok && after is Nothing,
        Inner::Nothing => r == Err::<(), FinishError>(FinishError::AlreadyFinished) && after is Nothing,
    }
}

/// The state of a facility's signal handling, which manages installing, uninstalling and
/// finishing it. Callers serialize the transitions (a facility holds it under a mutex).
pub struct State<W> {
    inner: Inner<W>,
}

impl<W: ReceiptsWorker> State<W> {
    /// Where the state stands.
    pub closed spec fn current(&self) -> Inner<W> {
        self.inner
    }

    /// Nothing installed yet.
    pub fn new() -> (r: Self)
        ensures
            r.current() is Nothing,
    {
        State { inner: Inner::Nothing }
    }

    /// Whether the handling is installed.
    pub fn is_installed(&self) -> (r: bool)
        ensures
            r == self.current() is Installed,
    {
        match &self.inner {
            Inner::Installed { .. } => true,
            _ => false,
        }
    }

    /// Whether the handling was uninstalled and its thread is kept.
    pub fn is_dormant(&self) -> (r: bool)
        ensures
            r == self.current() is Dormant,
    {
        match &self.inner {
            Inner::Dormant { .. } => true,
            _ => false,
        }
    }

    /// Whether nothing is installed or kept.
    pub fn is_finished(&self) -> (r: bool)
        ensures
            r == self.current() is Nothing,
    {
        match &self.inner {
            Inner::Nothing => true,
            _ => false,
        }
    }

    /// Takes the state out, leaving nothing installed in its place.
    fn take_inner(&mut self) -> (r: Inner<W>)
        ensures
            r == old(self).current(),
            final(self).current() is Nothing,
    {
        let mut prev = Inner::Nothing;
        core::mem::swap(&mut self.inner, &mut prev);
        prev
    }

    fn do_install<T: Sender, R: Premade>(&mut self, notify: T, is_encapsulated: bool) -> (r: Result<
        (),
        InstallError<T>,
    >)
        ensures
            install_spec(old(self).current(), final(self).current(), r, notify, is_encapsulated),
    {
        let receipts_thread = match self.take_inner() {
            Inner::Nothing => match W::spawn() {
                Ok(t) => t,
                Err(e) => {
                    return Err(InstallError::ThreadCreateFailed(e));
                },
            },
            Inner::Dormant { receipts_thread } => {
                if receipts_thread.is_alive() {
                    receipts_thread
                } else {
                    match W::spawn() {
                        Ok(t) => t,
                        Err(e) => {
                            return Err(InstallError::ThreadCreateFailed(e));
                        },
                    }
                }
            },
            Inner::Installed { receipts_thread, is_encapsulated: e } => {
                self.inner = Inner::Installed { receipts_thread, is_encapsulated: e };
                return Err(InstallError::AlreadyInstalled { unused_notify: notify });
            },
        };
        R::install_all_handlers();
        receipts_thread.installed(notify);
        self.inner = Inner::Installed { receipts_thread, is_encapsulated };
        Ok(())
    }

    fn do_uninstall<R: Premade>(&mut self, expect_encapsulated: bool) -> (r: Result<
        (),
        UninstallError,
    >)
        ensures
            uninstall_spec(old(self).current(), final(self).current(), r, expect_encapsulated),
    {
        match self.take_inner() {
            Inner::Installed { receipts_thread, is_encapsulated } => {
                if is_encapsulated == expect_encapsulated {
                    R::uninstall_all_handlers();
                    if receipts_thread.is_alive() {
                        receipts_thread.uninstalled();
                        self.inner = Inner::Dormant { receipts_thread };
                    }
                    Ok(())
                } else {
                    self.inner = Inner::Installed { receipts_thread, is_encapsulated };
                    Err(UninstallError::WrongMethod)
                }
            },
            Inner::Dormant { receipts_thread } => {
                self.inner = Inner::Dormant { receipts_thread };
                Err(UninstallError::AlreadyUninstalled)
            },
            Inner::Nothing => Err(UninstallError::AlreadyUninstalled),
        }
    }

    fn do_finish(&mut self) -> (r: Result<(), FinishError>)
        requires
            !(old(self).current() is Installed),
        ensures
            final(self).current() is Nothing,
            old(self).current() is Dormant ==> r is Ok,
            old(self).current() is Nothing ==> r == Err::<(), FinishError>(
                FinishError::AlreadyFinished,
            ),
    {
        match self.take_inner() {
            Inner::Dormant { receipts_thread } => {
                receipts_thread.finish();
                Ok(())
            },
            _ => Err(FinishError::AlreadyFinished),
        }
    }

    fn do_finish_after(&mut self, uninstalled: Result<(), UninstallError>) -> (r: Result<
        (),
        FinishError,
    >)
        requires
            uninstalled != Err::<(), UninstallError>(UninstallError::WrongMethod) ==> !(old(
                self,
            ).current() is Installed),
        ensures
            uninstalled == Err::<(), UninstallError>(UninstallError::WrongMethod) ==> r == Err::<
                (),
                FinishError,
            >(FinishError::WrongMethod) && final(self).current() == old(self).current(),
            uninstalled != Err::<(), UninstallError>(UninstallError::WrongMethod) ==> {
                &&& final(self).current() is Nothing
                &&& old(self).current() is Dormant ==> r is Ok
                &&& old(self).current() is Nothing ==> r == Err::<(), FinishError>(
                    FinishError::AlreadyFinished,
                )
            },
    {
        match uninstalled {
            Err(UninstallError::WrongMethod) => Err(FinishError::WrongMethod),
            _ => self.do_finish(),
        }
    }

    /// Installs the handling with a premade channel (bounded by `channel_bound` where given) and
    /// returns its receiving end.
    pub fn install<N: Send + 'static, C, R: Premade>(
        &mut self,
        channel_bound: Option<usize>,
    ) -> (r: Result<Receiver<N, C>, InstallError<()>>) where SignalNumber: TryInto<N>
        ensures
            install_spec(old(self).current(), final(self).current(), without_receiver(r), (), true),
    {
        let (sender, receiver) = match channel_bound {
            Some(bound) => signals_channel::bounded::<N, C>(bound),
            None => signals_channel::unbounded::<N, C>(),
        };
        match self.do_install::<signals_channel::PremadeSender<N>, R>(sender, true) {
            Ok(()) => Ok(receiver),
            Err(e) => Err(InstallError::from(e)),
        }
    }

    /// Installs the handling with a channel of the caller's.
    pub fn install_with_outside_channel<T: Sender, R: Premade>(&mut self, notify: T) -> (r: Result<
        (),
        InstallError<T>,
    >)
        ensures
            install_spec(old(self).current(), final(self).current(), r, notify, false),
    {
        self.do_install::<T, R>(notify, false)
    }

    /// Uninstalls handling that was installed with a premade channel, whose receiving end is given
    /// up (and so disconnected) first.
    pub fn uninstall<N, C, R: Premade>(&mut self, receiver: Receiver<N, C>) -> (r: Result<
        (),
        UninstallError,
    >)
        ensures
            uninstall_spec(old(self).current(), final(self).current(), r, true),
    {
        drop_receiver(receiver);
        self.do_uninstall::<R>(true)
    }

    /// Uninstalls handling that was installed with a channel of the caller's.
    pub fn uninstall_with_outside_channel<R: Premade>(&mut self) -> (r: Result<(), UninstallError>)
        ensures
            uninstall_spec(old(self).current(), final(self).current(), r, false),
    {
        self.do_uninstall::<R>(false)
    }

    /// Uninstalls (where installed with a premade channel, whose receiving end is given up) and
    /// then finishes the thread.
    pub fn finish<N, C, R: Premade>(&mut self, receiver: Receiver<N, C>) -> (r: Result<
        (),
        FinishError,
    >)
        ensures
            finish_spec(old(self).current(), final(self).current(), r, true),
    {
        let uninstalled = self.uninstall::<N, C, R>(receiver);
        self.do_finish_after(uninstalled)
    }

    /// Uninstalls (where installed with a channel of the caller's) and then finishes the thread.
    pub fn finish_with_outside_channel<R: Premade>(&mut self) -> (r: Result<(), FinishError>)
        ensures
            finish_spec(old(self).current(), final(self).current(), r, false),
    {
        let uninstalled = self.uninstall_with_outside_channel::<R>();
        self.do_finish_after(uninstalled)
    }
}

/// Gives up a premade receiving end, which disconnects its channel.
fn drop_receiver<N, C>(receiver: Receiver<N, C>) {
}

/// Installing again after an uninstall keeps the dormant thread where it is alive (and cannot be
/// found dead): the install succeeds with that same thread.
pub proof fn lemma_reinstall_reuses_thread<W: ReceiptsWorker, T>(
    receipts_thread: W,
    after: Inner<W>,
    r: Result<(), InstallError<T>>,
    notify: T,
    is_encapsulated: bool,
)
    requires
        install_spec((Inner::Dormant { receipts_thread }), after, r, notify, is_encapsulated),
        !W::is_alive.ensures((&receipts_thread,), false),
    ensures
        r is Ok,
        after == (Inner::Installed { receipts_thread, is_encapsulated }),
{
}

/// The life cycle of a facility: a successful install from nothing, then an uninstall by the
/// same method, succeeds and keeps the thread dormant where it was alive; a finish by that
/// method then ends with nothing installed, successfully where the thread was kept.
pub proof fn lemma_round_trip<W: ReceiptsWorker, T>(
    s1: Inner<W>,
    s2: Inner<W>,
    s3: Inner<W>,
    r1: Result<(), InstallError<T>>,
    r2: Result<(), UninstallError>,
    r3: Result<(), FinishError>,
    notify: T,
    is_encapsulated: bool,
)
    requires
        install_spec(Inner::Nothing, s1, r1, notify, is_encapsulated),
        r1 is Ok,
        uninstall_spec(s1, s2, r2, is_encapsulated),
        finish_spec(s2, s3, r3, is_encapsulated),
    ensures
        (s1 matches Inner::Installed { is_encapsulated: e, .. } && e == is_encapsulated),
        r2 is Ok,
        s2 is Dormant || s2 is Nothing,
        (match s1 {
            Inner::Installed { receipts_thread, .. } => !W::is_alive.ensures(
                (&receipts_thread,),
                false,
            ) ==> s2 == (Inner::Dormant { receipts_thread }),
            _ => false,
        }),
        s3 is Nothing,
        s2 is Dormant ==> r3 is Ok,
{
}

} // verus!
