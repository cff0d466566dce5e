use vstd::prelude::*;

use crate::errors::BusError;
use crate::handle::SharedTransportHandle;
use crate::ops::{ops_view, Operation, OpSpec};
use crate::transaction::{model_op, model_ops, model_transaction, reads_view};

verus! {

/// The per-peripheral facade over the shared transport. An adapter owns
/// exactly one chip-select line; [`LogicalDeviceAdapter::run`] executes an
/// ordered operation sequence as one atomic transaction: it acquires the
/// shared handle, asserts its chip-select, runs the operations fail-fast,
/// flushes, deasserts the chip-select, and releases the handle — the last
/// three unconditionally, on every exit path. The chip-select is asserted
/// only while the adapter holds the lock, and never outlives it.
pub struct LogicalDeviceAdapter {
    cs: u32,
    cs_asserted: bool,
}

impl LogicalDeviceAdapter {
    /// The id of the chip-select line this adapter owns.
    pub closed spec fn cs_id(&self) -> u32 {
        self.cs
    }

    /// Whether this adapter currently drives its chip-select active. It
    /// does so only inside a transaction, never between two.
    pub closed spec fn cs_is_asserted(&self) -> bool {
        self.cs_asserted
    }

    /// An adapter bound to one chip-select line, initially idle.
    pub fn new(cs: u32) -> (a: LogicalDeviceAdapter)
        ensures
            a.cs_id() == cs,
            !a.cs_is_asserted(),
    {
        LogicalDeviceAdapter { cs, cs_asserted: false }
    }

    /// The id of the owned chip-select line.
    pub fn chip_select(&self) -> (cs: u32)
        ensures
            cs == self.cs_id(),
    {
        self.cs
    }

    /// Whether the chip-select line is currently driven active.
    pub fn is_selected(&self) -> (b: bool)
        ensures
            b == self.cs_is_asserted(),
    {
        self.cs_asserted
    }

    /// Run one transaction: the whole operation sequence under one
    /// continuous lock hold and one continuous chip-select assertion.
    ///
    /// When the handle is free, the transaction executes exactly as
    /// [`model_transaction`] describes, and on success the returned buffers
    /// are the bytes received by each receiving operation, in order. On any
    /// path — success, an operation failure, a flush failure — the
    /// chip-select ends deasserted and the lock ends released. When the
    /// handle is already held, the request is a re-entrant acquisition:
    /// it is rejected as [`BusError::LockMisuse`] and the bus is untouched.
    pub fn run(&mut self, handle: &mut SharedTransportHandle, ops: &Vec<Operation>) -> (r: Result<
        Vec<Vec<u8>>,
        BusError,
    >)
        ensures
            final(self).cs_id() == old(self).cs_id(),
            !final(self).cs_is_asserted(),
            old(handle)@.holder is Some ==> final(handle)@ == old(handle)@ && r == Err::<
                Vec<Vec<u8>>,
                BusError,
            >(BusError::LockMisuse),
            old(handle)@.holder is None ==> ({
                let t = model_transaction(old(handle)@.bus, old(self).cs_id(), ops_view(ops@));
                &&& final(handle)@.holder is None
                &&& final(handle)@.bus == t.0
                &&& (match r {
                    Ok(v) => t.2 is None && reads_view(v@) == t.1,
                    Err(e) => t.2 == Option::Some(e),
                })
            }),
    {
        let cs = self.cs;
        if !handle.try_acquire(cs) {
            self.cs_asserted = false;
            return Err(BusError::LockMisuse);
        }
        handle.select(cs);
        self.cs_asserted = true;

        let ghost m0 = handle@.bus;
        let ghost opsv = ops_view(ops@);
        let ghost full = model_ops(m0, opsv);

        let mut reads: Vec<Vec<u8>> = Vec::new();
        let mut failure: Option<BusError> = Option::None;
        let mut i: usize = 0;

        proof {
            assert(opsv.skip(0) =~= opsv);
            assert(reads_view(reads@) =~= Seq::<Seq<u8>>::empty());
            assert(reads_view(reads@) + full.1 =~= full.1);
        }

        while i < ops.len() && failure.is_none()
            invariant
                i <= ops@.len(),
                opsv == ops_view(ops@),
                handle@.holder == Option::Some(cs),
                failure is None ==> ({
                    let c = model_ops(handle@.bus, opsv.skip(i as int));
                    &&& full.0 == c.0
                    &&& full.2 == c.2
                    &&& full.1 == reads_view(reads@) + c.1
                }),
                failure is Some ==> ({
                    &&& full.0 == handle@.bus
                    &&& full.2 == failure
                    &&& full.1 == reads_view(reads@)
                }),
            decreases ops@.len() - i, (if failure is None { 1int } else { 0int }),
        {
            let ghost pre = handle@.bus;
            proof {
                assert(opsv.len() == ops@.len());
                let si = opsv.skip(i as int);
                assert(si.len() == opsv.len() - i);
                assert(si[0] == opsv[i as int]);
                assert(opsv[i as int] == ops@[i as int]@);
                assert(si.drop_first() =~= opsv.skip(i as int + 1));
            }
            let step = exec_op(handle, &ops[i]);
            match step {
                Ok(opt) => {
                    let ghost reads_pre = reads@;
                    match opt {
                        Option::Some(d) => {
                            let ghost dv = d@;
                            reads.push(d);
                            proof {
                                assert(reads_view(reads@) =~= reads_view(reads_pre).push(dv));
                                let c_next = model_ops(handle@.bus, opsv.skip(i as int + 1));
                                assert(reads_view(reads_pre) + (seq![dv] + c_next.1) =~= reads_view(
                                    reads@,
                                ) + c_next.1);
                            }
                        },
                        Option::None => {},
                    }
                    i += 1;
                },
                Err(e) => {
                    proof {
                        let si = opsv.skip(i as int);
                        assert(model_op(pre, si[0]).1 == Err::<Option<Seq<u8>>, BusError>(e));
                        assert(model_ops(pre, si) == (
                            model_op(pre, si[0]).0,
                            Seq::<Seq<u8>>::empty(),
                            Option::Some(e),
                        ));
                        assert(reads_view(reads@) + Seq::<Seq<u8>>::empty() =~= reads_view(
                            reads@,
                        ));
                    }
                    failure = Option::Some(e);
                },
            }
        }

        proof {
            if failure is None {
                assert(opsv.skip(opsv.len() as int) =~= Seq::<OpSpec>::empty());
                assert(reads_view(reads@) + Seq::<Seq<u8>>::empty() =~= reads_view(reads@));
            }
        }

        let flush_result = handle.flush();
        handle.deselect(cs);
        self.cs_asserted = false;
        handle.release(cs);

        match failure {
            Option::Some(e) => Err(e),
            Option::None => match flush_result {
                Err(e) => Err(e),
                Ok(u) => Ok(reads),
            },
        }
    }
}

/// Execute one primitive operation against the locked transport. The
/// receiving operations hand back `Some` buffer, writes and delays `None`;
/// the effect on the transport is exactly [`model_op`].
fn exec_op(handle: &mut SharedTransportHandle, op: &Operation) -> (r: Result<
    Option<Vec<u8>>,
    BusError,
>)
    requires
        old(handle)@.holder is Some,
    ensures
        final(handle)@.holder == old(handle)@.holder,
        final(handle)@.bus == model_op(old(handle)@.bus, op@).0,
        (match (r, model_op(old(handle)@.bus, op@).1) {
            (Ok(Option::Some(v)), Ok(Option::Some(d))) => v@ == d,
            (Ok(Option::None), Ok(Option::None)) => true,
            (Err(a), Err(b)) => a == b,
            _ => false,
        }),
{
    match op {
        Operation::Read(len) => match handle.read(*len) {
            Ok(d) => Ok(Option::Some(d)),
            Err(e) => Err(e),
        },
        Operation::Write(data) => match handle.write(data) {
            Ok(u) => Ok(Option::None),
            Err(e) => Err(e),
        },
        Operation::Transfer(tx, rx_len) => match handle.transfer(tx, *rx_len) {
            Ok(d) => Ok(Option::Some(d)),
            Err(e) => Err(e),
        },
        Operation::TransferInPlace(buf) => match handle.transfer_in_place(buf) {
            Ok(d) => Ok(Option::Some(d)),
            Err(e) => Err(e),
        },
        Operation::DelayNs(ns) => {
            handle.note_delay(*ns);
            Ok(Option::None)
        },
    }
}

} // verus!
