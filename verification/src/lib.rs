//! Native-side bookkeeping for embedding a garbage-collected script engine.
//!
//! The library models the memory-safety contract between a host process and
//! the engine: scoped rooting of engine references in strict stack order,
//! read-only and read-write handles into rooted slots, write barriers for the
//! collector, balanced compartment entry and exit, fast-path value
//! conversions, and the runtime lifecycle of execution contexts.

pub mod codec;
pub mod collections;
pub mod compartment;
pub mod convert;
pub mod props;
pub mod rooting;
pub mod runtime;
pub mod value;
