//! A small request/response server, split into the decisions it takes and
//! the sockets it takes them about.
//!
//! This crate holds the decisions: what a connection does with each frame it
//! reads, what the listener does with each connection it is offered, and how
//! a server is shut down. Every function carries a contract that Verus
//! proves. Sockets, tasks and the wire codec live with the caller, which
//! performs the actions these functions return and reports what happened.

pub mod connection;
pub mod message;
pub mod server;
pub mod session;
pub mod system;
