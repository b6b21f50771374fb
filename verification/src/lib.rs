//! Labels and markers for bridging structured spans and events to a kernel
//! trace buffer that only understands flat `begin` / `end` markers.
//!
//! The crate turns span-lifecycle notifications into the markers a kernel
//! sink has to write. It performs no I/O itself: every operation returns the
//! markers to emit, and the caller hands them to the sink.

pub mod adapter;
pub mod error;
pub mod field;
pub mod format;
pub mod laws;
pub mod marker;
pub mod store;

pub use crate::adapter::{layer, AtraceLayer};
pub use crate::error::TraceError;
pub use crate::field::Field;
pub use crate::format::FieldRules;
pub use crate::marker::{Marker, MarkerKind};
pub use crate::store::SpanStore;
