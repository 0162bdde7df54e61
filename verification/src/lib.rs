//! Watches the shared clipboard selection of a windowing server and, on every
//! change of ownership, negotiates a text-like target with the owner, transfers
//! the selection through a window property, and hands the decoded text to a
//! caller-supplied sink.
//!
//! The protocol engine itself is pure: every decision it takes is a function
//! from its current state and the next transport event to a successor state and
//! the next transport request. The blocking calls into the windowing server
//! live outside the library and feed events back in.

pub mod codec;
pub mod connection;
pub mod errors;
pub mod laws;
pub mod records;
pub mod targets;
pub mod watcher;
