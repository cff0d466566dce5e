//! Bus arbitration and transport adaptation for a single shared SPI bus.
//!
//! One physical serial bus serves two peripherals — an e-paper display and
//! a LoRa radio — each with its own chip-select line. This crate owns the
//! arbitration layer between them:
//!
//! - [`bus::Bus`] — the simulated physical transport, sole owner of the
//!   wire, which captures every observable event and doubles as the test
//!   harness the guarantees are checked against;
//! - [`handle::SharedTransportHandle`] — the mutual-exclusion wrapper that
//!   serializes all bus traffic and gates every primitive on holding the
//!   lock;
//! - [`adapter::LogicalDeviceAdapter`] — the per-peripheral facade that
//!   runs an operation sequence as one atomic transaction under one
//!   continuous lock hold and one continuous chip-select assertion;
//! - [`bridge::ConcurrencyBridge`] — the same transactions offered to
//!   cooperatively scheduled callers over the synchronous adapter;
//! - [`ops`] and [`errors`] — the operation vocabulary and the error
//!   taxonomy shared by both interfaces.
//!
//! Every transaction's effect on the bus is pinned down by the spec-level
//! executor in [`transaction`], and the arbitration guarantees — mutual
//! exclusion, chip-select framing, release on failure, no partial retry,
//! bridge fidelity, zero-length no-ops — are stated and proved in
//! [`laws`].

pub mod adapter;
pub mod bridge;
pub mod bus;
pub mod errors;
pub mod handle;
pub mod laws;
pub mod ops;
pub mod trace;
pub mod transaction;
