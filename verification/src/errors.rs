use vstd::prelude::*;

verus! {

/// Failures surfaced by the bus arbitration layer.
///
/// Every failure is reported to the immediate caller as a result value;
/// nothing in this layer retries or swallows an error.
#[derive(Clone, Copy, Debug, PartialEq, Eq, Structural)]
pub enum BusError {
    /// The underlying bus primitive reported a hardware-level failure
    /// (for example a NACK or a timeout) while a transaction was running.
    TransportFault,
    /// A transaction was requested while the shared transport handle was
    /// already held. Nested or re-entrant acquisition is a programming
    /// error, not a runtime condition; it is rejected without touching
    /// the bus.
    LockMisuse,
}

} // verus!
