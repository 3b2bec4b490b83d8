//! Core of a native-messaging bridge: a length-prefixed frame codec, message
//! classification and routing, a capability-gated script sandbox, and a
//! supervisor for running servers.
//!
//! Process plumbing (stdio loops, task spawning, the broadcast log bus) lives
//! outside this crate; everything here is synchronous logic with contracts.

pub mod codec;
pub mod envelope;
pub mod json;
pub mod rpc;
pub mod sandbox;
pub mod supervisor;
pub mod text;
