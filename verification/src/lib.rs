//! Session layer for one two-party byte-stream chat link.
//!
//! Every message travels as a frame of fixed length. The library holds the
//! framing codec, the session's state machine and the rules of the chat
//! window in front of it; a driver outside it owns the sockets and the
//! terminal, performs the reads, writes and accepts, and reports their
//! outcomes.

pub mod chat;
pub mod clock;
pub mod connection;
pub mod frame;
pub mod report;
