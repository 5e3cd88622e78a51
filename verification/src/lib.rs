//! Core logic of a small operator panel that publishes a bounded sequence of
//! messages to a remote topic and tracks the one outstanding job without ever
//! blocking the polling side.

pub mod handle;
pub mod inbox;
pub mod job;
pub mod presenter;
pub mod runner;
pub mod text;
