//! An authenticated execution-observation beacon.
//!
//! A caller names a quote by an opaque 32-byte identifier. If the host has
//! authenticated the caller, the beacon hands one [`ExecutionObserved`] record
//! to an emission sink, and it keeps no state of its own.

pub mod beacon;
pub mod event;
pub mod identity;
pub mod sink;

pub use beacon::{emit_execution, BeaconError};
pub use event::{ExecutionObserved, EVENT_LEN};
pub use identity::{Caller, EmitExecution, PublicKey};
pub use sink::{EmissionSink, MemorySink, SinkFailure};
