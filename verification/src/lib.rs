//! Core logic of a bridge that exposes a robot's pub/sub motion-command and
//! telemetry topics as a two-method RPC service.
//!
//! The bridge's decisions are pure and are verified here: projecting the bus's
//! twist message onto the three-field velocity command, collapsing the
//! bounded-wait outcome into either a fresh command or an all-NaN sentinel
//! response, copying a sensor reading field-for-field onto the telemetry
//! topic, and mapping transport status codes onto the client's domain errors.
//! The transport itself, the pub/sub handles and the async plumbing live
//! outside this crate and hand plain values in and out.
//!
//! Double-precision values cross the bridge untouched, so they are carried
//! here as raw IEEE 754 bit patterns ([`u64`]); that makes "byte-for-byte
//! equal" and "is the NaN sentinel" exact statements rather than approximate
//! ones.

pub mod bridge;
pub mod config;
pub mod error;
pub mod fbits;
pub mod msg;
