//! A facility that turns receipts of signals into notifications on a channel: a dedicated thread
//! runs the consuming loop and sends one notification per signal that was received in a pass,
//! and a state machine (nothing installed, installed, dormant) manages installing, uninstalling
//! and finishing.
pub mod receipts_thread;
pub mod signals_channel;
pub mod state;
