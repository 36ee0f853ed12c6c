//! A minimal tool-invocation harness for an MCP-style RPC setup: a server
//! that registers one message tool and dispatches calls by name, and a
//! client driver that discovers tools and calls the well-known ones.
//!
//! Everything that decides — the dispatcher and its argument defaulting,
//! the session state, the static registry, the client's plan and state
//! machine, and the startup configuration — lives here, with contracts.
//! The network transport is not modelled: the hosting process performs
//! the wire work and exchanges plain values with this library.

pub mod args;
pub mod client;
pub mod config;
pub mod server;
pub mod session;
pub mod text;
