//! Core of a local IPC layer between a supervisor process and a long-running
//! worker ("sidecar"): the length-prefixed frame codec used on the wire, the
//! cascading schema dispatcher that classifies an opaque payload into one of a
//! fixed set of message types, the per-connection read state machine, and the
//! sidecar process supervisor's bookkeeping.
//!
//! Everything here is pure logic over byte buffers and plain values; the
//! surrounding application owns the actual socket, stream and process I/O and
//! feeds the results of its reads into these functions.

pub mod bridge;
pub mod codec;
pub mod conn;
pub mod encode;
pub mod listener;
pub mod schema;
pub mod sidecar;
pub mod wire;
