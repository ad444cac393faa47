//! Hikaru: the decision core of a Discord gateway client.
//!
//! The library holds what a gateway client decides: how close codes are
//! read and resolved, how opcodes are decoded, how a shard reacts to what
//! the gateway sends, which shards a client starts, and how periods of time
//! are shown. Sockets, HTTP and timers live in the program around it.

pub mod foreign_types;
pub mod error;
pub mod gateway;
pub mod util;
pub mod client;
pub mod bot;
pub mod rest;
