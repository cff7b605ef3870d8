//! Hardware-telemetry acquisition core for an SMC-style sensor controller.
//!
//! The controller exposes a fixed key/value register space addressed by
//! four-character ASCII keys. Reading one register is a two-phase
//! transaction: a key-info request discovers the payload size and type
//! tag, then a read request fetches the raw bytes, which are decoded
//! into a fixed-point value according to the tag. On top of the codec
//! sit a sensor query layer (plausibility filtering, aggregation and
//! fallback policy), a time-windowed cache for each metric class, and
//! a start/stop state machine for synthetic load tests.
//!
//! Everything here is pure logic over plain values: the platform calls
//! that carry a request record to the controller, sample the operating
//! system's per-thread usage counters, or spawn worker threads live in
//! the surrounding application, which feeds their results to this
//! library and obeys the request/response protocol stated on the
//! functions below.

pub mod cache;
pub mod codec;
pub mod decode;
pub mod error;
pub mod gpu;
pub mod info;
pub mod key;
pub mod load;
pub mod record;
pub mod sensor;
pub mod usage;
