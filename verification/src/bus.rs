use vstd::prelude::*;

use crate::errors::BusError;
use crate::trace::{events_view, BusEvent, Event};

verus! {

/// The mathematical state of the simulated transport: the trace captured so
/// far, the pending injected fault, and the byte every read returns.
pub ghost struct BusModel {
    /// Every observable event so far, oldest first.
    pub trace: Seq<Event>,
    /// `Some(k)` arms a one-shot fault: the next `k` fallible primitive
    /// calls succeed and the one after them fails. `None` means no fault
    /// is pending, so every primitive succeeds.
    pub fail_in: Option<usize>,
    /// The byte the simulated peripheral answers with on every exchange.
    pub rx_fill: u8,
}

/// `len` copies of `fill`: what the simulated peripheral hands back for a
/// read of `len` bytes.
pub open spec fn fill_bytes(len: int, fill: u8) -> Seq<u8> {
    Seq::new(len as nat, |i: int| fill)
}

/// One fallible primitive call consuming the fault countdown: the new state
/// and whether this call fails. A fault fires exactly once, then disarms.
pub open spec fn model_tick(m: BusModel) -> (BusModel, bool) {
    match m.fail_in {
        Option::Some(k) => if k == 0 {
            (BusModel { trace: m.trace, fail_in: Option::None, rx_fill: m.rx_fill }, true)
        } else {
            (
                BusModel {
                    trace: m.trace,
                    fail_in: Option::Some((k - 1) as usize),
                    rx_fill: m.rx_fill,
                },
                false,
            )
        },
        Option::None => (m, false),
    }
}

/// The state after capturing one more event.
pub open spec fn model_push(m: BusModel, e: Event) -> BusModel {
    BusModel { trace: m.trace.push(e), fail_in: m.fail_in, rx_fill: m.rx_fill }
}

/// What a read of `len` bytes does: a zero-length read is a no-op that
/// cannot fail; otherwise one fallible call that, on success, captures the
/// received bytes and returns them.
pub open spec fn model_read(m: BusModel, len: usize) -> (BusModel, Result<Seq<u8>, BusError>) {
    if len == 0 {
        (m, Ok(Seq::empty()))
    } else {
        let t = model_tick(m);
        if t.1 {
            (t.0, Err(BusError::TransportFault))
        } else {
            (
                model_push(t.0, Event::Read(fill_bytes(len as int, m.rx_fill))),
                Ok(fill_bytes(len as int, m.rx_fill)),
            )
        }
    }
}

/// What writing `data` does: a zero-length write is a no-op that cannot
/// fail; otherwise one fallible call that, on success, captures the bytes.
pub open spec fn model_write(m: BusModel, data: Seq<u8>) -> (BusModel, Result<(), BusError>) {
    if data.len() == 0 {
        (m, Ok(()))
    } else {
        let t = model_tick(m);
        if t.1 {
            (t.0, Err(BusError::TransportFault))
        } else {
            (model_push(t.0, Event::Write(data)), Ok(()))
        }
    }
}

/// What a full-duplex exchange does: a no-op when both directions are
/// zero-length; otherwise one fallible call that, on success, captures the
/// bytes sent and the bytes received, and returns the received ones.
pub open spec fn model_transfer(m: BusModel, tx: Seq<u8>, rx_len: usize) -> (
    BusModel,
    Result<Seq<u8>, BusError>,
) {
    if tx.len() == 0 && rx_len == 0 {
        (m, Ok(Seq::empty()))
    } else {
        let t = model_tick(m);
        if t.1 {
            (t.0, Err(BusError::TransportFault))
        } else {
            (
                model_push(t.0, Event::Transfer(tx, fill_bytes(rx_len as int, m.rx_fill))),
                Ok(fill_bytes(rx_len as int, m.rx_fill)),
            )
        }
    }
}

/// What an in-place exchange does: the buffer's prior contents go out and
/// as many bytes come back; zero-length is a no-op.
pub open spec fn model_transfer_in_place(m: BusModel, buf: Seq<u8>) -> (
    BusModel,
    Result<Seq<u8>, BusError>,
) {
    if buf.len() == 0 {
        (m, Ok(Seq::empty()))
    } else {
        let t = model_tick(m);
        if t.1 {
            (t.0, Err(BusError::TransportFault))
        } else {
            (
                model_push(t.0, Event::TransferInPlace(buf, fill_bytes(buf.len() as int, m.rx_fill))),
                Ok(fill_bytes(buf.len() as int, m.rx_fill)),
            )
        }
    }
}

/// What a flush does: one fallible call that, on success, marks every
/// submitted byte as physically clocked out.
pub open spec fn model_flush(m: BusModel) -> (BusModel, Result<(), BusError>) {
    let t = model_tick(m);
    if t.1 {
        (t.0, Err(BusError::TransportFault))
    } else {
        (model_push(t.0, Event::Flush), Ok(()))
    }
}

/// What a timed pause does: nothing on the bus; the capture keeps a timing
/// marker so that a trace shows the pause inside its chip-select window.
pub open spec fn model_delay(m: BusModel, ns: u32) -> BusModel {
    model_push(m, Event::Delay(ns))
}

/// The simulated physical transport: the sole owner of the (simulated)
/// wire. It captures every observable event, which makes it double as the
/// test harness the arbitration guarantees are checked against, and it can
/// be armed with a one-shot fault to exercise failure paths.
///
/// The transport itself is not thread-safe and enforces no framing; that is
/// the job of the shared handle and the adapters built on top of it.
pub struct Bus {
    trace: Vec<BusEvent>,
    fail_in: Option<usize>,
    rx_fill: u8,
}

impl View for Bus {
    type V = BusModel;

    closed spec fn view(&self) -> BusModel {
        BusModel { trace: events_view(self.trace@), fail_in: self.fail_in, rx_fill: self.rx_fill }
    }
}

impl Bus {
    /// A fresh transport with an empty capture. Every read answers with
    /// `rx_fill` bytes; `fail_in` arms the one-shot fault: with `Some(k)`,
    /// the `k + 1`-th fallible primitive call fails.
    pub fn new(rx_fill: u8, fail_in: Option<usize>) -> (b: Bus)
        ensures
            b@ == (BusModel { trace: Seq::<Event>::empty(), fail_in, rx_fill }),
    {
        let b = Bus { trace: Vec::new(), fail_in, rx_fill };
        proof {
            assert(events_view(b.trace@) =~= Seq::<Event>::empty());
        }
        b
    }

    /// Consume the fault countdown for one fallible primitive call.
    fn tick(&mut self) -> (failed: bool)
        ensures
            final(self)@ == model_tick(old(self)@).0,
            failed == model_tick(old(self)@).1,
    {
        match self.fail_in {
            Option::Some(k) => {
                if k == 0 {
                    self.fail_in = Option::None;
                    true
                } else {
                    self.fail_in = Option::Some(k - 1);
                    false
                }
            },
            Option::None => false,
        }
    }

    /// Capture one event.
    fn push_event(&mut self, e: BusEvent)
        ensures
            final(self)@ == model_push(old(self)@, e@),
    {
        let ghost ev = e@;
        self.trace.push(e);
        proof {
            assert(events_view(self.trace@) =~= events_view(old(self).trace@).push(ev));
        }
    }

    /// Read `len` bytes from the selected peripheral.
    pub fn read(&mut self, len: usize) -> (r: Result<Vec<u8>, BusError>)
        ensures
            final(self)@ == model_read(old(self)@, len).0,
            bytes_result_matches(r, model_read(old(self)@, len).1),
    {
        if len == 0 {
            return Ok(Vec::new());
        }
        if self.tick() {
            return Err(BusError::TransportFault);
        }
        let data = fill_vec(len, self.rx_fill);
        let echo = fill_vec(len, self.rx_fill);
        self.push_event(BusEvent::Read(echo));
        Ok(data)
    }

    /// Write `data` to the selected peripheral.
    pub fn write(&mut self, data: &Vec<u8>) -> (r: Result<(), BusError>)
        ensures
            final(self)@ == model_write(old(self)@, data@).0,
            r == model_write(old(self)@, data@).1,
    {
        if data.len() == 0 {
            return Ok(());
        }
        if self.tick() {
            return Err(BusError::TransportFault);
        }
        self.push_event(BusEvent::Write(clone_bytes(data)));
        Ok(())
    }

    /// Exchange bytes full-duplex: send `tx`, receive `rx_len` bytes.
    pub fn transfer(&mut self, tx: &Vec<u8>, rx_len: usize) -> (r: Result<Vec<u8>, BusError>)
        ensures
            final(self)@ == model_transfer(old(self)@, tx@, rx_len).0,
            bytes_result_matches(r, model_transfer(old(self)@, tx@, rx_len).1),
    {
        if tx.len() == 0 && rx_len == 0 {
            return Ok(Vec::new());
        }
        if self.tick() {
            return Err(BusError::TransportFault);
        }
        let rx = fill_vec(rx_len, self.rx_fill);
        let echo = fill_vec(rx_len, self.rx_fill);
        self.push_event(BusEvent::Transfer(clone_bytes(tx), echo));
        Ok(rx)
    }

    /// Exchange bytes full-duplex in place: send the buffer's contents and
    /// return the bytes that would overwrite it.
    pub fn transfer_in_place(&mut self, buf: &Vec<u8>) -> (r: Result<Vec<u8>, BusError>)
        ensures
            final(self)@ == model_transfer_in_place(old(self)@, buf@).0,
            bytes_result_matches(r, model_transfer_in_place(old(self)@, buf@).1),
    {
        if buf.len() == 0 {
            return Ok(Vec::new());
        }
        if self.tick() {
            return Err(BusError::TransportFault);
        }
        let rx = fill_vec(buf.len(), self.rx_fill);
        let echo = fill_vec(buf.len(), self.rx_fill);
        self.push_event(BusEvent::TransferInPlace(clone_bytes(buf), echo));
        Ok(rx)
    }

    /// Guarantee every submitted byte has physically been clocked out.
    pub fn flush(&mut self) -> (r: Result<(), BusError>)
        ensures
            final(self)@ == model_flush(old(self)@).0,
            r == model_flush(old(self)@).1,
    {
        if self.tick() {
            return Err(BusError::TransportFault);
        }
        self.push_event(BusEvent::Flush);
        Ok(())
    }

    /// Record a timed pause taken while the peripheral stays selected.
    pub fn note_delay(&mut self, ns: u32)
        ensures
            final(self)@ == model_delay(old(self)@, ns),
    {
        self.push_event(BusEvent::Delay(ns));
    }

    /// Record a chip-select line driven to its active level.
    pub fn select(&mut self, cs: u32)
        ensures
            final(self)@ == model_push(old(self)@, Event::Select(cs)),
    {
        self.push_event(BusEvent::Select(cs));
    }

    /// Record a chip-select line driven back to its idle level.
    pub fn deselect(&mut self, cs: u32)
        ensures
            final(self)@ == model_push(old(self)@, Event::Deselect(cs)),
    {
        self.push_event(BusEvent::Deselect(cs));
    }

    /// The capture so far, oldest event first.
    pub fn trace(&self) -> (t: &Vec<BusEvent>)
        ensures
            events_view(t@) == self@.trace,
    {
        &self.trace
    }
}

/// Whether an executable byte-buffer result agrees with its model.
pub open spec fn bytes_result_matches(
    r: Result<Vec<u8>, BusError>,
    m: Result<Seq<u8>, BusError>,
) -> bool {
    match (r, m) {
        (Ok(v), Ok(d)) => v@ == d,
        (Err(a), Err(b)) => a == b,
        _ => false,
    }
}

/// `len` copies of `fill`, executably.
fn fill_vec(len: usize, fill: u8) -> (v: Vec<u8>)
    ensures
        v@ == fill_bytes(len as int, fill),
{
    let mut v: Vec<u8> = Vec::new();
    let mut i: usize = 0;
    while i < len
        invariant
            i <= len,
            v@.len() == i,
            forall|j: int| 0 <= j < i ==> v@[j] == fill,
        decreases len - i,
    {
        v.push(fill);
        i += 1;
    }
    proof {
        assert(v@ =~= fill_bytes(len as int, fill));
    }
    v
}

/// A fresh buffer holding the same bytes.
fn clone_bytes(data: &Vec<u8>) -> (c: Vec<u8>)
    ensures
        c@ == data@,
{
    let mut c: Vec<u8> = Vec::new();
    let mut i: usize = 0;
    while i < data.len()
        invariant
            i <= data@.len(),
            c@ == data@.take(i as int),
        decreases data@.len() - i,
    {
        c.push(data[i]);
        proof {
            assert(c@ =~= data@.take(i + 1 as int));
        }
        i += 1;
    }
    proof {
        assert(data@.take(data@.len() as int) =~= data@);
    }
    c
}

} // verus!
