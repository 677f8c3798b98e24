//! Core of a local inter-process control channel: a line-delimited JSON
//! command protocol, the shared content value it manipulates, and the
//! dispatch and response rules for each command.
//!
//! The socket transport and the window/event collaborators live outside
//! this library; they hand lines in and carry actions out.

pub mod codec;
pub mod dispatch;
pub mod json;
pub mod store;
pub mod text;
