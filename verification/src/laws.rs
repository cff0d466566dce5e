use vstd::prelude::*;

use crate::bridge::model_bridge_transaction;
use crate::bus::{fill_bytes, model_flush, model_push, BusModel};
use crate::errors::BusError;
use crate::ops::OpSpec;
use crate::trace::{is_cs_edge, is_traffic, Event};
use crate::transaction::{model_op, model_ops, model_transaction};

verus! {

/// A well-framed chip-select window: the segment opens by driving line `cs`
/// active, closes by driving the same line back to idle, and no chip-select
/// edge of any line occurs in between. Everything inside one frame belongs
/// to the one transaction that owns the window.
pub open spec fn is_cs_frame(seg: Seq<Event>, cs: u32) -> bool {
    &&& seg.len() >= 2
    &&& seg.first() == Event::Select(cs)
    &&& seg.last() == Event::Deselect(cs)
    &&& forall|j: int| 0 < j < seg.len() - 1 ==> !is_cs_edge(#[trigger] seg[j])
}

/// The events one successful operation contributes to the capture: nothing
/// for a zero-length operation, a timing marker for a delay, one data event
/// otherwise.
pub open spec fn op_events(op: OpSpec, fill: u8) -> Seq<Event> {
    match op {
        OpSpec::Read(len) => if len == 0 {
            Seq::empty()
        } else {
            seq![Event::Read(fill_bytes(len as int, fill))]
        },
        OpSpec::Write(data) => if data.len() == 0 {
            Seq::empty()
        } else {
            seq![Event::Write(data)]
        },
        OpSpec::Transfer(tx, rx_len) => if tx.len() == 0 && rx_len == 0 {
            Seq::empty()
        } else {
            seq![Event::Transfer(tx, fill_bytes(rx_len as int, fill))]
        },
        OpSpec::TransferInPlace(buf) => if buf.len() == 0 {
            Seq::empty()
        } else {
            seq![Event::TransferInPlace(buf, fill_bytes(buf.len() as int, fill))]
        },
        OpSpec::DelayNs(ns) => seq![Event::Delay(ns)],
    }
}

/// The events a sequence of operations contributes when every one of them
/// succeeds, in operation order.
pub open spec fn ops_events(ops: Seq<OpSpec>, fill: u8) -> Seq<Event>
    decreases ops.len(),
{
    if ops.len() == 0 {
        Seq::empty()
    } else {
        op_events(ops[0], fill) + ops_events(ops.drop_first(), fill)
    }
}

/// How many leading operations fail-fast execution actually runs before it
/// stops: all of them, or exactly those before the first failure.
pub open spec fn executed_ops(m: BusModel, ops: Seq<OpSpec>) -> int
    decreases ops.len(),
{
    if ops.len() == 0 {
        0
    } else {
        let t = model_op(m, ops[0]);
        match t.1 {
            Err(e) => 0,
            Ok(opt) => 1 + executed_ops(t.0, ops.drop_first()),
        }
    }
}

/// How one operation shapes the capture: the receive fill byte never
/// changes; a successful operation appends exactly its own events; a failed
/// one appends nothing, reports the transport fault, and disarms the
/// injected fault; with no fault armed the operation cannot fail.
proof fn lemma_model_op_shape(m: BusModel, op: OpSpec)
    ensures
        ({
            let t = model_op(m, op);
            &&& t.0.rx_fill == m.rx_fill
            &&& (t.1 is Ok ==> t.0.trace == m.trace + op_events(op, m.rx_fill))
            &&& (t.1 is Err ==> t.0.trace == m.trace && t.0.fail_in is None && t.1 == Err::<
                Option<Seq<u8>>,
                BusError,
            >(BusError::TransportFault))
            &&& (m.fail_in is None ==> t.1 is Ok && t.0.fail_in is None)
        }),
{
    let t = model_op(m, op);
    if t.1 is Ok {
        assert(t.0.trace == m.trace + op_events(op, m.rx_fill)) by {
            match op {
                OpSpec::Read(len) => {
                    if len == 0 {
                        assert(m.trace + op_events(op, m.rx_fill) =~= m.trace);
                    } else {
                        assert(m.trace + op_events(op, m.rx_fill) =~= m.trace.push(
                            Event::Read(fill_bytes(len as int, m.rx_fill)),
                        ));
                    }
                },
                OpSpec::Write(data) => {
                    if data.len() == 0 {
                        assert(m.trace + op_events(op, m.rx_fill) =~= m.trace);
                    } else {
                        assert(m.trace + op_events(op, m.rx_fill) =~= m.trace.push(
                            Event::Write(data),
                        ));
                    }
                },
                OpSpec::Transfer(tx, rx_len) => {
                    if tx.len() == 0 && rx_len == 0 {
                        assert(m.trace + op_events(op, m.rx_fill) =~= m.trace);
                    } else {
                        assert(m.trace + op_events(op, m.rx_fill) =~= m.trace.push(
                            Event::Transfer(tx, fill_bytes(rx_len as int, m.rx_fill)),
                        ));
                    }
                },
                OpSpec::TransferInPlace(buf) => {
                    if buf.len() == 0 {
                        assert(m.trace + op_events(op, m.rx_fill) =~= m.trace);
                    } else {
                        assert(m.trace + op_events(op, m.rx_fill) =~= m.trace.push(
                            Event::TransferInPlace(
                                buf,
                                fill_bytes(buf.len() as int, m.rx_fill),
                            ),
                        ));
                    }
                },
                OpSpec::DelayNs(ns) => {
                    assert(m.trace + op_events(op, m.rx_fill) =~= m.trace.push(
                        Event::Delay(ns),
                    ));
                },
            }
        }
    }
}

/// How fail-fast execution shapes the capture: the executed prefix
/// contributes exactly its events, in order; execution fails exactly when
/// it stops early; a failure disarms the injected fault; with no fault
/// armed every operation succeeds.
proof fn lemma_model_ops_shape(m: BusModel, ops: Seq<OpSpec>)
    ensures
        ({
            let t = model_ops(m, ops);
            let k = executed_ops(m, ops);
            &&& 0 <= k <= ops.len()
            &&& t.0.rx_fill == m.rx_fill
            &&& t.0.trace == m.trace + ops_events(ops.take(k), m.rx_fill)
            &&& (t.2 is None <==> k == ops.len())
            &&& (t.2 is Some ==> t.0.fail_in is None && t.2 == Option::Some(
                BusError::TransportFault,
            ))
            &&& (m.fail_in is None ==> t.2 is None && t.0.fail_in is None)
        }),
    decreases ops.len(),
{
    let t = model_ops(m, ops);
    let k = executed_ops(m, ops);
    if ops.len() == 0 {
        assert(ops.take(0) =~= Seq::<OpSpec>::empty());
        assert(m.trace + ops_events(ops.take(0), m.rx_fill) =~= m.trace);
    } else {
        let t0 = model_op(m, ops[0]);
        lemma_model_op_shape(m, ops[0]);
        match t0.1 {
            Err(e) => {
                assert(k == 0);
                assert(ops.take(0) =~= Seq::<OpSpec>::empty());
                assert(m.trace + ops_events(ops.take(0), m.rx_fill) =~= m.trace);
            },
            Ok(opt) => {
                lemma_model_ops_shape(t0.0, ops.drop_first());
                let k1 = executed_ops(t0.0, ops.drop_first());
                assert(k == 1 + k1);
                assert(ops.take(k)[0] == ops[0]);
                assert(ops.take(k).drop_first() =~= ops.drop_first().take(k1));
                assert(ops_events(ops.take(k), m.rx_fill) == op_events(ops[0], m.rx_fill)
                    + ops_events(ops.drop_first().take(k1), m.rx_fill));
                assert(m.trace + ops_events(ops.take(k), m.rx_fill) =~= (m.trace + op_events(
                    ops[0],
                    m.rx_fill,
                )) + ops_events(ops.drop_first().take(k1), t0.0.rx_fill));
            },
        }
    }
}

/// No event an operation sequence contributes is a chip-select edge: the
/// chip-select lines move only at the two ends of a transaction.
proof fn lemma_ops_events_no_cs(ops: Seq<OpSpec>, fill: u8)
    ensures
        forall|j: int|
            0 <= j < ops_events(ops, fill).len() ==> !is_cs_edge(
                #[trigger] ops_events(ops, fill)[j],
            ),
    decreases ops.len(),
{
    if ops.len() == 0 {
    } else {
        lemma_ops_events_no_cs(ops.drop_first(), fill);
        let head = op_events(ops[0], fill);
        let rest = ops_events(ops.drop_first(), fill);
        assert forall|j: int| 0 <= j < ops_events(ops, fill).len() implies !is_cs_edge(
            ops_events(ops, fill)[j],
        ) by {
            assert(ops_events(ops, fill) == head + rest);
            if j < head.len() {
                assert(ops_events(ops, fill)[j] == head[j]);
                assert(!is_cs_edge(head[j]));
            } else {
                assert(ops_events(ops, fill)[j] == rest[j - head.len()]);
            }
        }
    }
}

/// No partial retry, and nothing but the owed work: a transaction's exact
/// footprint on the capture. Some prefix of the operations — all of them
/// exactly when the transaction reports no failure — contributes its events
/// once each, in order, between the opening chip-select assertion and the
/// flush/deassertion; the operations after a failure contribute nothing,
/// because they are never executed, and nothing is ever executed twice.
pub proof fn lemma_no_partial_retry(m: BusModel, cs: u32, ops: Seq<OpSpec>)
    ensures
        ({
            let m0 = model_push(m, Event::Select(cs));
            let k = executed_ops(m0, ops);
            let flushed = model_flush(model_ops(m0, ops).0).1 is Ok;
            let tx = model_transaction(m, cs, ops);
            &&& 0 <= k <= ops.len()
            &&& (tx.2 is None ==> k == ops.len() && flushed)
            &&& tx.0.trace == m.trace + seq![Event::Select(cs)] + ops_events(
                ops.take(k),
                m.rx_fill,
            ) + (if flushed {
                seq![Event::Flush]
            } else {
                Seq::<Event>::empty()
            }) + seq![Event::Deselect(cs)]
        }),
{
    let m0 = model_push(m, Event::Select(cs));
    lemma_model_ops_shape(m0, ops);
    let t = model_ops(m0, ops);
    let k = executed_ops(m0, ops);
    let f = model_flush(t.0);
    let tx = model_transaction(m, cs, ops);
    let opsev = ops_events(ops.take(k), m.rx_fill);
    if f.1 is Ok {
        assert(tx.0.trace =~= m.trace + seq![Event::Select(cs)] + opsev + seq![Event::Flush]
            + seq![Event::Deselect(cs)]);
    } else {
        assert(tx.0.trace =~= m.trace + seq![Event::Select(cs)] + opsev + Seq::<Event>::empty()
            + seq![Event::Deselect(cs)]);
    }
}

/// Chip-select framing: every transaction, however it ends, leaves the
/// capture before it untouched and appends one well-framed window of its
/// own chip-select line — asserted before the first event, deasserted after
/// the last one. When the transaction reports no failure, the mandatory
/// flush sits directly before the deassertion, so the line is never
/// released while bytes could still be in flight.
pub proof fn lemma_transaction_frame(m: BusModel, cs: u32, ops: Seq<OpSpec>)
    ensures
        ({
            let tx = model_transaction(m, cs, ops);
            let frame = tx.0.trace.skip(m.trace.len() as int);
            &&& tx.0.trace.len() >= m.trace.len() + 2
            &&& tx.0.trace.take(m.trace.len() as int) == m.trace
            &&& is_cs_frame(frame, cs)
            &&& (tx.2 is None ==> frame[frame.len() - 2] == Event::Flush)
            &&& tx.0.rx_fill == m.rx_fill
        }),
{
    lemma_no_partial_retry(m, cs, ops);
    let m0 = model_push(m, Event::Select(cs));
    lemma_model_ops_shape(m0, ops);
    let k = executed_ops(m0, ops);
    let flushed = model_flush(model_ops(m0, ops).0).1 is Ok;
    let opsev = ops_events(ops.take(k), m.rx_fill);
    lemma_ops_events_no_cs(ops.take(k), m.rx_fill);
    let tx = model_transaction(m, cs, ops);
    let frame = tx.0.trace.skip(m.trace.len() as int);
    let flushseq: Seq<Event> = if flushed {
        seq![Event::Flush]
    } else {
        Seq::<Event>::empty()
    };
    assert(tx.0.trace.take(m.trace.len() as int) =~= m.trace);
    assert(frame =~= seq![Event::Select(cs)] + opsev + flushseq + seq![Event::Deselect(cs)]);
    assert(frame.first() == Event::Select(cs));
    assert(frame.last() == Event::Deselect(cs));
    assert forall|j: int| 0 < j < frame.len() - 1 implies !is_cs_edge(frame[j]) by {
        if j <= opsev.len() {
            assert(frame[j] == opsev[j - 1]);
        } else {
            assert(frame[j] == Event::Flush);
        }
    }
}

/// Mutual exclusion: any two transactions run in some serial order — the
/// shared handle's lock admits nothing else, since each transaction holds
/// it from before its first event to after its last — and for either order
/// the capture splits into two complete, disjoint chip-select frames. No
/// event of one transaction, in particular no assertion of the other
/// adapter's chip-select line, ever falls inside the other's window.
pub proof fn lemma_mutual_exclusion(
    m: BusModel,
    cs_a: u32,
    ops_a: Seq<OpSpec>,
    cs_b: u32,
    ops_b: Seq<OpSpec>,
)
    ensures
        ({
            let ta = model_transaction(m, cs_a, ops_a);
            let tb = model_transaction(ta.0, cs_b, ops_b);
            let la = ta.0.trace.len() as int;
            &&& m.trace.len() + 2 <= la
            &&& la + 2 <= tb.0.trace.len()
            &&& tb.0.trace.take(m.trace.len() as int) == m.trace
            &&& is_cs_frame(tb.0.trace.subrange(m.trace.len() as int, la), cs_a)
            &&& is_cs_frame(tb.0.trace.skip(la), cs_b)
        }),
{
    lemma_transaction_frame(m, cs_a, ops_a);
    let ta = model_transaction(m, cs_a, ops_a);
    lemma_transaction_frame(ta.0, cs_b, ops_b);
    let tb = model_transaction(ta.0, cs_b, ops_b);
    let la = ta.0.trace.len() as int;
    assert(tb.0.trace.take(m.trace.len() as int) =~= m.trace);
    assert(tb.0.trace.subrange(m.trace.len() as int, la) =~= ta.0.trace.skip(
        m.trace.len() as int,
    ));
}

/// With no fault armed, a transaction is owed success: it reports no
/// failure, and leaves no fault armed either.
pub proof fn lemma_unfaulted_transaction_succeeds(m: BusModel, cs: u32, ops: Seq<OpSpec>)
    requires
        m.fail_in is None,
    ensures
        ({
            let tx = model_transaction(m, cs, ops);
            &&& tx.2 is None
            &&& tx.0.fail_in is None
        }),
{
    let m0 = model_push(m, Event::Select(cs));
    lemma_model_ops_shape(m0, ops);
}

/// An injected fault fires at most once: a transaction that reports a
/// failure consumes it, leaving no fault armed behind.
pub proof fn lemma_failed_transaction_disarms(m: BusModel, cs: u32, ops: Seq<OpSpec>)
    ensures
        ({
            let tx = model_transaction(m, cs, ops);
            tx.2 is Some ==> tx.0.fail_in is None
        }),
{
    let m0 = model_push(m, Event::Select(cs));
    lemma_model_ops_shape(m0, ops);
}

/// Release on failure, seen from the next transaction: when one transaction
/// fails at any position, an unrelated transaction submitted afterwards —
/// from the other adapter or the same one — succeeds. Together with
/// [`LogicalDeviceAdapter::run`]'s own guarantee that the lock ends
/// released and the chip-select deasserted on every path, and with
/// [`lemma_transaction_frame`]'s one deassertion per frame, this is the
/// whole release-on-failure story: a failed transaction corrupts nothing
/// that outlives it.
///
/// [`LogicalDeviceAdapter::run`]: crate::adapter::LogicalDeviceAdapter::run
pub proof fn lemma_release_on_failure(
    m: BusModel,
    cs_a: u32,
    ops_a: Seq<OpSpec>,
    cs_b: u32,
    ops_b: Seq<OpSpec>,
)
    ensures
        ({
            let ta = model_transaction(m, cs_a, ops_a);
            let tb = model_transaction(ta.0, cs_b, ops_b);
            ta.2 is Some ==> tb.2 is None
        }),
{
    lemma_failed_transaction_disarms(m, cs_a, ops_a);
    let ta = model_transaction(m, cs_a, ops_a);
    if ta.2 is Some {
        lemma_unfaulted_transaction_succeeds(ta.0, cs_b, ops_b);
    }
}

/// Bridge fidelity: a transaction submitted through the concurrency bridge
/// produces byte-for-byte identical bus traffic — the same capture, the
/// same received buffers, the same reported failure — as the same
/// transaction submitted directly through the underlying adapter. Both
/// [`ConcurrencyBridge::run`] and [`LogicalDeviceAdapter::run`] pin their
/// effect to these models, so the coincidence of the models is the
/// coincidence of the traffic.
///
/// [`ConcurrencyBridge::run`]: crate::bridge::ConcurrencyBridge::run
/// [`LogicalDeviceAdapter::run`]: crate::adapter::LogicalDeviceAdapter::run
pub proof fn lemma_bridge_fidelity(m: BusModel, cs: u32, ops: Seq<OpSpec>)
    ensures
        model_bridge_transaction(m, cs, ops) == model_transaction(m, cs, ops),
{
}

/// A zero-length write is a no-op, not an error: the transaction puts no
/// traffic on the bus, yet still completes the full assert/deassert
/// framing of its chip-select window.
pub proof fn lemma_zero_length_write_noop(m: BusModel, cs: u32)
    ensures
        ({
            let tx = model_transaction(m, cs, seq![OpSpec::Write(Seq::empty())]);
            let frame = tx.0.trace.skip(m.trace.len() as int);
            &&& tx.0.trace.take(m.trace.len() as int) == m.trace
            &&& is_cs_frame(frame, cs)
            &&& (forall|j: int| 0 <= j < frame.len() ==> !is_traffic(#[trigger] frame[j]))
        }),
{
    let ops = seq![OpSpec::Write(Seq::empty())];
    lemma_transaction_frame(m, cs, ops);
    lemma_no_partial_retry(m, cs, ops);
    let m0 = model_push(m, Event::Select(cs));
    let k = executed_ops(m0, ops);
    let flushed = model_flush(model_ops(m0, ops).0).1 is Ok;
    assert(ops_events(ops.take(k), m.rx_fill) =~= Seq::<Event>::empty()) by {
        if k == 0 {
            assert(ops.take(0) =~= Seq::<OpSpec>::empty());
            assert(ops_events(Seq::<OpSpec>::empty(), m.rx_fill) == Seq::<Event>::empty());
        } else {
            assert(ops.take(k) =~= ops);
            assert(ops[0] == OpSpec::Write(Seq::<u8>::empty()));
            assert(op_events(ops[0], m.rx_fill) == Seq::<Event>::empty());
            assert(ops.drop_first() =~= Seq::<OpSpec>::empty());
            assert(ops_events(ops.drop_first(), m.rx_fill) == ops_events(
                Seq::<OpSpec>::empty(),
                m.rx_fill,
            ));
            assert(ops_events(Seq::<OpSpec>::empty(), m.rx_fill) == Seq::<Event>::empty());
            assert(ops_events(ops, m.rx_fill) == op_events(ops[0], m.rx_fill) + ops_events(
                ops.drop_first(),
                m.rx_fill,
            ));
            assert(Seq::<Event>::empty() + Seq::<Event>::empty() =~= Seq::<Event>::empty());
        }
    }
    let tx = model_transaction(m, cs, ops);
    let frame = tx.0.trace.skip(m.trace.len() as int);
    let flushseq: Seq<Event> = if flushed {
        seq![Event::Flush]
    } else {
        Seq::<Event>::empty()
    };
    assert(frame =~= seq![Event::Select(cs)] + Seq::<Event>::empty() + flushseq + seq![
        Event::Deselect(cs),
    ]);
    assert forall|j: int| 0 <= j < frame.len() implies !is_traffic(frame[j]) by {
        if j == 0 {
            assert(frame[j] == Event::Select(cs));
        } else if j == frame.len() - 1 {
            assert(frame[j] == Event::Deselect(cs));
        } else {
            assert(frame[j] == Event::Flush);
        }
    }
}

} // verus!

