use signals_receipts::channel_notify_facility::signals_channel::{SendError, Sender};
use signals_receipts::channel_notify_facility::state::{
    FinishError, InstallError, NewError, ReceiptsWorker, State, UninstallError,
};
use signals_receipts::{Premade, Sealed};
use std::sync::atomic::AtomicBool;
use std::sync::mpsc;

struct Quiet;

impl Sealed for Quiet {}

impl Premade for Quiet {
    type Continue = ();
    type Break = ();
    fn continue_flag() -> &'static AtomicBool {
        Box::leak(Box::new(AtomicBool::new(true)))
    }
    fn install_handlers(_mask: bool, _restart: bool) {}
    fn uninstall_all_handlers() {}
    fn reset_all_counters() {}
    fn consume_loop_with(_do_mask: bool, _state: (), finish: ()) -> () {
        finish
    }
    fn wake_consumer() {}
}

struct LiveThread;

impl ReceiptsWorker for LiveThread {
    fn spawn() -> Result<Self, NewError> {
        Ok(LiveThread)
    }
    fn is_alive(&self) -> bool {
        true
    }
    fn installed<T: Sender>(&self, notify: T) {
        let _ = notify.send(0);
    }
    fn uninstalled(&self) {}
    fn finish(self) {}
}

struct DeadThread;

impl ReceiptsWorker for DeadThread {
    fn spawn() -> Result<Self, NewError> {
        Ok(DeadThread)
    }
    fn is_alive(&self) -> bool {
        false
    }
    fn installed<T: Sender>(&self, _notify: T) {}
    fn uninstalled(&self) {}
    fn finish(self) {}
}

struct NoThread;

impl ReceiptsWorker for NoThread {
    fn spawn() -> Result<Self, NewError> {
        Err(NewError::ThreadCreateFailed(std::io::Error::new(std::io::ErrorKind::Other, "no")))
    }
    fn is_alive(&self) -> bool {
        true
    }
    fn installed<T: Sender>(&self, _notify: T) {}
    fn uninstalled(&self) {}
    fn finish(self) {}
}

#[derive(Debug)]
struct CustomSender(mpsc::SyncSender<i32>);

impl Sender for CustomSender {
    fn send(&self, sig_num: i32) -> Result<(), SendError> {
        self.0.try_send(sig_num).map_err(|e| match e {
            mpsc::TrySendError::Full(_) => SendError::Full,
            mpsc::TrySendError::Disconnected(_) => SendError::Disconnected,
        })
    }
}

#[test]
fn facility_life_cycle() {
    let mut state: State<LiveThread> = State::new();
    assert!(state.is_finished());
    assert!(matches!(
        state.finish_with_outside_channel::<Quiet>(),
        Err(FinishError::AlreadyFinished)
    ));
    assert!(state.is_finished());

    let receiver = state.install::<i32, (), Quiet>(None).unwrap();
    assert!(state.is_installed());
    // The worker's `installed` sent a first notification on the premade channel.
    assert_eq!(receiver.as_ref().recv().unwrap(), 0);

    assert_eq!(state.uninstall_with_outside_channel::<Quiet>(), Err(UninstallError::WrongMethod));
    assert!(state.is_installed());
    assert!(matches!(
        state.install::<i32, (), Quiet>(None),
        Err(InstallError::AlreadyInstalled { unused_notify: () })
    ));

    assert_eq!(state.uninstall::<i32, (), Quiet>(receiver), Ok(()));
    assert!(state.is_dormant());
    assert_eq!(state.uninstall_with_outside_channel::<Quiet>(), Err(UninstallError::AlreadyUninstalled));
    assert!(state.is_dormant());

    let receiver = state.install::<u8, (), Quiet>(Some(1)).unwrap();
    assert!(state.is_installed());
    assert_eq!(state.finish_with_outside_channel::<Quiet>(), Err(FinishError::WrongMethod));
    assert!(state.is_installed());
    assert_eq!(state.finish::<u8, (), Quiet>(receiver), Ok(()));
    assert!(state.is_finished());

    let (tx, rx) = mpsc::channel::<i32>();
    state.install_with_outside_channel::<_, Quiet>(tx).unwrap();
    assert!(state.is_installed());
    assert_eq!(rx.recv().unwrap(), 0);
    let (tx2, rx2) = mpsc::channel::<u8>();
    match state.install_with_outside_channel::<_, Quiet>(tx2) {
        Err(InstallError::AlreadyInstalled { unused_notify }) => {
            unused_notify.send(123).unwrap();
            assert_eq!(rx2.try_recv().unwrap(), 123);
        },
        _ => unreachable!(),
    }
    assert_eq!(state.uninstall_with_outside_channel::<Quiet>(), Ok(()));
    assert!(state.is_dormant());

    let (stx, srx) = mpsc::sync_channel(1);
    state.install_with_outside_channel::<_, Quiet>(CustomSender(stx)).unwrap();
    assert_eq!(srx.recv().unwrap(), 0);
    assert_eq!(state.finish_with_outside_channel::<Quiet>(), Ok(()));
    assert!(state.is_finished());
    assert_eq!(state.finish_with_outside_channel::<Quiet>(), Err(FinishError::AlreadyFinished));
}

#[test]
fn a_dead_thread_is_not_kept() {
    let mut state: State<DeadThread> = State::new();
    let (tx, _rx) = mpsc::channel::<i32>();
    state.install_with_outside_channel::<_, Quiet>(tx).unwrap();
    assert!(state.is_installed());
    assert_eq!(state.uninstall_with_outside_channel::<Quiet>(), Ok(()));
    assert!(state.is_finished());
    let (tx, _rx) = mpsc::channel::<i32>();
    state.install_with_outside_channel::<_, Quiet>(tx).unwrap();
    assert_eq!(state.finish_with_outside_channel::<Quiet>(), Err(FinishError::AlreadyFinished));
    assert!(state.is_finished());
}

#[test]
fn a_failed_thread_creation_installs_nothing() {
    let mut state: State<NoThread> = State::new();
    let r = state.install::<i32, (), Quiet>(None);
    assert!(matches!(r, Err(InstallError::ThreadCreateFailed(NewError::ThreadCreateFailed(_)))));
    assert!(state.is_finished());
}

#[test]
fn uninstall_error_bears_on_finish() {
    let r: Result<(), FinishError> = UninstallError::AlreadyUninstalled.into();
    assert_eq!(r, Ok(()));
    let r: Result<(), FinishError> = UninstallError::WrongMethod.into();
    assert_eq!(r, Err(FinishError::WrongMethod));
    let e: InstallError<()> = InstallError::AlreadyInstalled { unused_notify: mpsc::channel::<i32>().0 }.into();
    assert!(matches!(e, InstallError::AlreadyInstalled { unused_notify: () }));
}

#[test]
fn premade_defaults() {
    assert_eq!(Quiet::consume_loop(), ());
    assert_eq!(Quiet::consume_loop_no_mask(), ());
    Quiet::install_all_handlers();
    Quiet::reset_continue_flag();
    Quiet::finish();
}

#[test]
fn error_descriptions() {
    assert_eq!(UninstallError::AlreadyUninstalled.description(), "already uninstalled signal handling");
    assert_eq!(UninstallError::WrongMethod.description(), "uninstall method wrong for how installed");
    assert_eq!(FinishError::AlreadyFinished.description(), "already finished signal handling");
    assert_eq!(FinishError::WrongMethod.description(), "finish method wrong for how installed");
    let e: InstallError<()> = InstallError::AlreadyInstalled { unused_notify: () };
    assert_eq!(e.description(), "already installed signal handling");
    let io = std::io::Error::new(std::io::ErrorKind::Other, "x");
    let e: InstallError<()> = InstallError::ThreadCreateFailed(NewError::SemaphoreInitFailed(io));
    assert_eq!(e.description(), "failed to create internal thread");
    let io = std::io::Error::new(std::io::ErrorKind::Other, "x");
    assert_eq!(NewError::SemaphoreInitFailed(io).description(), "semaphore initialization failed");
    let io = std::io::Error::new(std::io::ErrorKind::Other, "x");
    assert_eq!(NewError::ThreadCreateFailed(io).description(), "thread creation failed at OS level");
}
