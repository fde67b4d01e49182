//! A request/response bridge between a frame-driven user interface and an
//! asynchronous worker that executes EIP-1193 RPC calls.
//!
//! The bridge carries opaque text payloads in two unbounded FIFO directions:
//! requests travel from the interface to the worker, responses travel back.
//! Both sides poll without blocking, so neither scheduling domain can stall
//! the other.
//!
//! `bridge` holds the verified protocol core: the queue state, the submit /
//! poll / finish / receive transitions, and the delivery, no-duplication,
//! silent-absence and ordering laws. `endpoints` carries the same protocol
//! across two scheduling domains over a pair of channels of the
//! `async-channel` crate.

pub mod bridge;
pub mod endpoints;
pub mod queue;
