//! A byte-stream fan-out proxy: every payload a client sends is mirrored to a
//! set of named targets, and the responses of one designated target are
//! streamed back to the client. A chain of hooks may rewrite or reject each
//! payload on its way in either direction.
//!
//! This crate holds the routing rules as functions from state and event to
//! next state and action. Sockets, tasks and channels live with the caller.
pub mod broadcaster;
pub mod cli;
pub mod client;
pub mod config;
pub mod endpoint;
pub mod error;
pub mod hooks;
pub mod laws;
pub mod script;
pub mod server;
pub mod session;
pub mod target;
pub mod text;
pub mod utils;
