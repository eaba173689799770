//! A gateway that turns inbound HTTP requests into invocations of executables
//! under a sandboxed root directory, and turns each executable's output back
//! into an HTTP response.
//!
//! The modules hold the gateway's decision logic: path resolution with sandbox
//! enforcement, the envelope codec, the stream-bridge pumps, the listener
//! startup rules, and the request router. All I/O (the HTTP engine, process
//! spawning, the filesystem) stays outside; the functions here take plain
//! values and state in their contracts what they decide.

pub mod args;
pub mod bridge;
pub mod codec;
pub mod dispatcher;
pub mod process;
pub mod request_parser;
pub mod startup;
pub mod types;
