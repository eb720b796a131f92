//! The decision logic of a middleware that relays messages between ECR
//! machines (over TCP) and POS devices (over NATS JetStream).
//!
//! The network, the NATS client and the command line stay outside this
//! crate; what is decided on the bytes and strings that pass through is
//! here, with its contracts.

pub mod buf;
pub mod utils;
pub mod connection;
pub mod config;
pub mod server;
pub mod handler;
