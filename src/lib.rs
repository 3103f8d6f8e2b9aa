//! Message protocol and command-dispatch engine for a small remote-operations
//! tool: a controller sends requests to agents over a persistent connection, and
//! each agent executes them locally and answers with exactly one result.
//!
//! The library holds everything that decides: the request and result types, the
//! binary wire format, what an agent does with each frame, and how a controller
//! turns a typed command line into a request. Sockets, processes, files and
//! terminals stay with the caller, which performs the actions the library asks
//! for and hands back what happened.

pub mod message;
pub mod text;
pub mod wire;
pub mod codec;
pub mod engine;
pub mod agent;
pub mod controller;
pub mod config;
