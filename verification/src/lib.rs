//! Asynchronous filesystem bridge of an embedded language runtime.
//!
//! A single-threaded, cooperatively scheduled interpreter issues blocking
//! filesystem calls without blocking its own thread: a builtin validates the
//! arguments, obtains a promise capability, registers a fresh handle with the
//! runtime's readiness reactor, and hands the blocking work to a worker pool.
//! The worker records its result in a response store and raises a readiness
//! signal; back on the main thread, the settlement handler consumes the
//! response and settles the owning promise exactly once.
//!
//! This crate holds the verified core of that bridge: argument validation,
//! handle allocation, the token registry, the response store, outcome
//! classification, and settlement. The embedder supplies the reactor, the
//! worker pool, and the promise machinery, and drives the loop.

pub mod async_iterator;
pub mod disk;
pub mod fs;
pub mod laws;
pub mod registry;
pub mod store;
pub mod values;
