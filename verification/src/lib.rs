//! Core of a terminal I/O backend for a text-user-interface toolkit.
//!
//! The backend sits between a host toolkit and the operating system's
//! terminal: it owns the session lifecycle (raw mode, alternate screen),
//! translates native input events into a fixed-width key encoding, batches
//! styled output into an ordered queue that an explicit flush drains, and
//! maps a small closed palette onto concrete terminal colors.
//!
//! Everything here is pure bookkeeping over plain values: terminal commands
//! are described by [`session::Instruction`] values, and the thin shell that
//! actually writes them to a terminal lives outside this crate.

pub mod color;
pub mod effect;
pub mod event;
pub mod geometry;
pub mod key;
pub mod session;
