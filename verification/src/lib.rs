//! Session engine for a local-process scripting bridge.
//!
//! One process drives an embedded script engine running in a second process
//! over a local byte stream. This crate holds the verified core of that
//! bridge: the wire codec for the fixed binary request/response frames, the
//! slab-style arena that maps small integer identifiers to engine-owned value
//! handles, and the per-connection session state machine that turns decoded
//! requests and script outcomes into responses. The transport itself, the
//! engine calls and the per-connection workers live outside this crate and
//! exchange plain values with it.

pub mod arena;
pub mod codec;
pub mod handle;
pub mod session;
