//! A synchronous inter-process bridge: a host invokes named commands in a
//! long-lived worker process over line-delimited JSON on the worker's
//! standard input/output pipes.
//!
//! This crate holds the verified core: the wire-protocol codec (framing an
//! outbound request into exactly one line, interpreting an inbound response
//! line as a success-or-error outcome) and the decision logic of a blocking
//! `call` round trip. Process spawning and the pipes themselves live with
//! the embedding application.

pub mod bridge;
pub mod codec;
pub mod handlers;
pub mod holder;
pub mod json;
pub mod response;
