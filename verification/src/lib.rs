//! Propagation of W3C trace context between processes through the
//! `TRACEPARENT` environment slot, and its bridge to the active span of the
//! OpenTelemetry runtime.

pub mod bridge;
pub mod codec;
pub mod emitter;
pub mod hex;
pub mod runtime;
pub mod startup;
pub mod store;

pub use crate::bridge::{start_with_spanlink, start_with_traceparent};
pub use crate::emitter::generate_traceparent;
pub use crate::startup::init;
pub use crate::store::{read_traceparent, update_traceparent, TRACEPARENT};
