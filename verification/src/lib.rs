//! Client-side tracing instrumentation: generates and renders distributed-trace
//! identifiers, parses the incoming propagation header, builds segment and
//! subsegment documents with their exact wire encoding, tracks the active
//! trace context through nested scopes, and frames finished documents for the
//! local collector.

pub mod entropy;
pub mod epoch;
pub mod error;
pub mod header;
pub mod hexbytes;
pub mod json;
pub mod recorder;
pub mod segment;
pub mod segment_id;
pub mod text;
pub mod trace_id;
pub mod transport;
