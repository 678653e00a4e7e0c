//! The activity: the one owner of the panes, the queues, the connection and
//! the log, driven by events and answering with effects.

pub mod effect;
pub mod engine;
pub mod event;
pub mod model;
pub mod theorems;
