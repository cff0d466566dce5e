use vstd::prelude::*;

verus! {

/// One primitive operation of a transaction. A transaction is an ordered
/// sequence of these, executed as one unit under one continuous lock hold
/// and one continuous chip-select assertion.
///
/// A zero-length `Read`, `Write`, `Transfer` or `TransferInPlace` is a
/// no-op, not an error: it produces no bus traffic and cannot fail.
#[derive(Debug, PartialEq, Eq)]
pub enum Operation {
    /// Read this many bytes from the selected peripheral.
    Read(usize),
    /// Write these bytes to the selected peripheral.
    Write(Vec<u8>),
    /// Full-duplex exchange: send these bytes, receive this many.
    Transfer(Vec<u8>, usize),
    /// Full-duplex exchange in place: send the buffer's contents and
    /// receive as many bytes back.
    TransferInPlace(Vec<u8>),
    /// Pause this many nanoseconds without touching the bus. The pause is
    /// inside the critical section by design: the peripheral stays
    /// selected, since some peripherals need settling time mid-command.
    DelayNs(u32),
}

/// The mathematical shape of an operation.
pub ghost enum OpSpec {
    Read(usize),
    Write(Seq<u8>),
    Transfer(Seq<u8>, usize),
    TransferInPlace(Seq<u8>),
    DelayNs(u32),
}

impl View for Operation {
    type V = OpSpec;

    open spec fn view(&self) -> OpSpec {
        match self {
            Operation::Read(len) => OpSpec::Read(*len),
            Operation::Write(data) => OpSpec::Write(data@),
            Operation::Transfer(tx, rx_len) => OpSpec::Transfer(tx@, *rx_len),
            Operation::TransferInPlace(buf) => OpSpec::TransferInPlace(buf@),
            Operation::DelayNs(ns) => OpSpec::DelayNs(*ns),
        }
    }
}

/// The mathematical shape of an operation sequence.
pub open spec fn ops_view(ops: Seq<Operation>) -> Seq<OpSpec> {
    ops.map_values(|op: Operation| op@)
}

} // verus!
