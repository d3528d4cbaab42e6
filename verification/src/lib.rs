//! Non-blocking datagram operations over the per-socket state of a polled
//! network engine.
//!
//! The engine owns every socket and is driven from outside by polling. A task
//! that wants to wait for a datagram cannot block inside the engine, so each
//! operation here is one *attempt*: a synchronous try against the socket's
//! state that either completes or registers the caller's waker and reports
//! that the caller should suspend. Every function is stated against
//! [`view::SocketView`], the mathematical content of a socket.

pub mod endpoint;
pub mod error;
pub mod view;
pub mod engine;
pub mod attempt;
pub mod udp;
pub mod laws;
