//! Core logic of a minimal request/response server.
//!
//! The server accepts TCP connections, decodes one binary message per read,
//! dispatches on the message kind (numeric addition or echo), and writes the
//! encoded response back on the same connection. This crate verifies the
//! decision logic of that loop: message dispatch, per-connection session
//! semantics, and the shared lifecycle flag. Socket I/O, threads, and the
//! wire codec live outside, and hand the library plain events and values.

pub mod handler;
pub mod lifecycle;
pub mod message;
