//! A call multiplexer: many independent remote procedure calls, each with its
//! own request and response stream, carried over one duplex connection.
//!
//! The library is free of I/O. A connection is a value that is told what
//! arrived and asked what to send; reading and writing the physical stream is
//! left to the program that owns it.
//!
//! - [`frame`] is the envelope of one step of one call, and its encoding.
//! - [`call`] is one call and the state machine that governs it.
//! - [`registry`] holds the calls of a connection by id.
//! - [`dispatch`] holds the methods that handlers are registered under.
//! - [`idle`] notes when each call was last heard of.
//! - [`connection`] ties these together: it takes frames in, queues frames
//!   for the single writer, and keeps each call apart from the others.
//! - [`service`] is what a handler is given and what it gives back.
//! - [`laws`] states what holds of every connection.
//!
//! The remaining modules are the services that ride on a connection, each
//! with the client's side, the server's side and the interface that a server
//! implements.

pub mod error;
pub mod bytes;
pub mod frame;
pub mod call;
pub mod registry;
pub mod dispatch;
pub mod idle;
pub mod connection;
pub mod laws;
pub mod service;
pub mod alert_grpc;
pub mod broker_grpc;
pub mod build_grpc;
pub mod events_grpc;
pub mod store_grpc;
pub mod transport_grpc;
