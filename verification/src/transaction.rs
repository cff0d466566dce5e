use vstd::prelude::*;

use crate::bus::{
    model_delay, model_flush, model_push, model_read, model_transfer, model_transfer_in_place,
    model_write, BusModel,
};
use crate::errors::BusError;
use crate::ops::OpSpec;
use crate::trace::Event;

verus! {

/// What one operation does to the transport: the new state, and either the
/// bytes received (`Ok(Some(..))` for the three receiving operations),
/// nothing received (`Ok(None)` for writes and delays), or the failure.
pub open spec fn model_op(m: BusModel, op: OpSpec) -> (
    BusModel,
    Result<Option<Seq<u8>>, BusError>,
) {
    match op {
        OpSpec::Read(len) => {
            let t = model_read(m, len);
            match t.1 {
                Ok(d) => (t.0, Ok(Option::Some(d))),
                Err(e) => (t.0, Err(e)),
            }
        },
        OpSpec::Write(data) => {
            let t = model_write(m, data);
            match t.1 {
                Ok(u) => (t.0, Ok(Option::None)),
                Err(e) => (t.0, Err(e)),
            }
        },
        OpSpec::Transfer(tx, rx_len) => {
            let t = model_transfer(m, tx, rx_len);
            match t.1 {
                Ok(d) => (t.0, Ok(Option::Some(d))),
                Err(e) => (t.0, Err(e)),
            }
        },
        OpSpec::TransferInPlace(buf) => {
            let t = model_transfer_in_place(m, buf);
            match t.1 {
                Ok(d) => (t.0, Ok(Option::Some(d))),
                Err(e) => (t.0, Err(e)),
            }
        },
        OpSpec::DelayNs(ns) => (model_delay(m, ns), Ok(Option::None)),
    }
}

/// Fail-fast execution of an operation sequence: the operations run in
/// order and the first failure aborts all remaining ones, with no retry.
/// Returns the new state, the buffers received by the operations that did
/// execute successfully, and the first failure, if any.
pub open spec fn model_ops(m: BusModel, ops: Seq<OpSpec>) -> (
    BusModel,
    Seq<Seq<u8>>,
    Option<BusError>,
)
    decreases ops.len(),
{
    if ops.len() == 0 {
        (m, Seq::empty(), Option::None)
    } else {
        let t = model_op(m, ops[0]);
        match t.1 {
            Err(e) => (t.0, Seq::empty(), Option::Some(e)),
            Ok(opt) => {
                let rest = model_ops(t.0, ops.drop_first());
                let reads = match opt {
                    Option::Some(d) => seq![d] + rest.1,
                    Option::None => rest.1,
                };
                (rest.0, reads, rest.2)
            },
        }
    }
}

/// One whole transaction for the adapter with chip-select `cs`: assert the
/// chip-select, run the operations fail-fast, flush unconditionally, and
/// deassert the chip-select. The chip-select edges and the flush attempt
/// happen on every path, success or failure, so no transaction — however it
/// ends — leaves the peripheral selected. The reported failure is the first
/// operation failure, or the flush failure when every operation succeeded.
pub open spec fn model_transaction(m: BusModel, cs: u32, ops: Seq<OpSpec>) -> (
    BusModel,
    Seq<Seq<u8>>,
    Option<BusError>,
) {
    let m0 = model_push(m, Event::Select(cs));
    let t = model_ops(m0, ops);
    let f = model_flush(t.0);
    let m3 = model_push(f.0, Event::Deselect(cs));
    let err = match (t.2, f.1) {
        (Option::Some(e), _) => Option::Some(e),
        (Option::None, Err(e)) => Option::Some(e),
        (Option::None, Ok(u)) => Option::None,
    };
    (m3, t.1, err)
}

/// The mathematical shape of the buffers a transaction hands back.
pub open spec fn reads_view(v: Seq<Vec<u8>>) -> Seq<Seq<u8>> {
    v.map_values(|x: Vec<u8>| x@)
}

/// What a transaction runner must do next: execute the operation at this
/// position, or finish the transaction (flush, deselect, release).
#[derive(Clone, Copy, Debug, PartialEq, Eq, Structural)]
pub enum TxStep {
    /// Execute the operation at this position.
    Execute(usize),
    /// No operation is left to run — either all ran or one failed — so
    /// finish: flush, deassert the chip-select, release the lock.
    Finish,
}

/// The fail-fast sequencing rule of a transaction, as a single decision:
/// with `pos` operations of `n_ops` already done and `failed` saying
/// whether one of them failed, the next operation runs only if none failed
/// and some are left; otherwise the transaction finishes. The finishing
/// steps themselves are unconditional on every path.
pub fn next_step(n_ops: usize, pos: usize, failed: bool) -> (s: TxStep)
    ensures
        s == (if !failed && pos < n_ops {
            TxStep::Execute(pos)
        } else {
            TxStep::Finish
        }),
{
    if !failed && pos < n_ops {
        TxStep::Execute(pos)
    } else {
        TxStep::Finish
    }
}

} // verus!
