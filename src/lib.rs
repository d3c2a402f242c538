//! A passive TCP honeypot: every byte a peer sends is kept in a log file named
//! after the connection's start time and the peer's address.
//!
//! This crate holds the decisions: how a log file is named, what each read
//! leads to, and what the accept loop does with each outcome. The sockets and
//! files themselves are driven by the program around it.
pub mod capture;
pub mod clock;
pub mod listener;
pub mod naming;
pub mod text;
