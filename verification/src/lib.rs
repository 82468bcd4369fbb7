//! The core of a single-room text broadcast server, free of input and output.
//!
//! Clients connect, join the one room, and what any of them sends is relayed
//! to all the others. This library holds the decisions: who is registered
//! ([`room`]), what a worker does on each thing its transport reports
//! ([`client`]), how clients are named ([`server`]), and what goes over the
//! wire ([`text`]). Sockets, threads and the lock around the room are the
//! caller's. What holds of every run is stated and proved in [`laws`].

pub mod client;
pub mod errors;
pub mod laws;
pub mod room;
pub mod server;
pub mod text;
