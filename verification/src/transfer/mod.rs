//! The transfer queue: what is to be copied, in which order, and how far the
//! work has come.

pub mod lemmas;
pub mod model;
pub mod queue;
pub mod theorems;
