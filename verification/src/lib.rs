//! Core of an asynchronous ICMP Echo (ping) engine.
//!
//! The crate holds the verified heart of the engine: the ICMP wire-format
//! codec (encode, decode, Internet checksum), the reply router that
//! correlates inbound Echo Replies with outstanding requests, the
//! per-destination ping session logic, and the statistics accumulator.
//! Socket creation, the asynchronous intake loop and the command-line
//! front end live outside the library and drive it through plain values.

pub mod addr;
pub mod error;
pub mod checksum;
pub mod icmp;
pub mod router;
pub mod session;
pub mod stats;
