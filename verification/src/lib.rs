//! Transfer orchestration for a dual-pane file transfer client.
//!
//! The crate holds the decisions of the client: what the two panes show, which
//! transfers are queued and in which state, which follow-up actions wait for a
//! user decision, which local paths are watched, and how the connection to the
//! remote side is kept alive. Everything that touches a terminal, a socket or a
//! disk is left to the caller, which performs the effects this crate asks for
//! and reports back what happened.

pub mod activity;
pub mod browser;
pub mod cache;
pub mod connection;
pub mod entry;
pub mod log;
pub mod message;
pub mod pane;
pub mod path;
pub mod pending;
pub mod popups;
pub mod remote;
pub mod search;
pub mod sorting;
pub mod transfer;
pub mod watcher;

pub use activity::engine::FileTransferActivity;
pub use log::{LogLevel, LogRecord};
