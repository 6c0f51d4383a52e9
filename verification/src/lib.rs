//! A small tracing library: it defines the five fixed "thesis point" span
//! records and emits each of them, with its `brief` attribute, as a named
//! timed span on an OpenTelemetry tracer.
//!
//! The verified core states exactly which records are emitted and that every
//! span that emission opens is closed again: the ghost event trace returned
//! by the emitting functions is a balanced sequence of start/end events.

pub mod emit;
pub mod records;
pub mod trace;
