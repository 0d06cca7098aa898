//! Presence monitoring of automated chat accounts: a registry of who watches
//! which bot, a classifier for presence changes, and the decisions that turn a
//! change into direct messages.

pub mod app;
pub mod local;
pub mod notify;
pub mod register;
pub mod status;

pub use app::{App, CreateOutcome, ListOutcome, RemoveOutcome};
pub use local::LocalRegister;
pub use notify::{notifications, FanOut, Notification};
pub use register::{
    entries_for_subject, entries_for_watcher, CreateEntry, ListEntriesPayload, Register,
    RegisterEntry, RegisterError, RemoveEntry,
};
pub use status::{classify, EventStatus, PresenceStatus};
