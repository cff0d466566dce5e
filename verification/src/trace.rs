use vstd::prelude::*;

verus! {

/// One observable event on the shared bus, as captured by the simulated
/// transport. Chip-select edges, delays and flushes frame a transaction;
/// the four data events are the actual bus traffic.
#[derive(Debug, PartialEq, Eq)]
pub enum BusEvent {
    /// The chip-select line with this id was driven to its active level.
    Select(u32),
    /// The chip-select line with this id was driven back to its idle level.
    Deselect(u32),
    /// Bytes were clocked in from the selected peripheral.
    Read(Vec<u8>),
    /// Bytes were clocked out to the selected peripheral.
    Write(Vec<u8>),
    /// A full-duplex exchange: bytes sent, bytes received.
    Transfer(Vec<u8>, Vec<u8>),
    /// An in-place full-duplex exchange: the buffer's prior contents were
    /// sent while the received bytes overwrote it.
    TransferInPlace(Vec<u8>, Vec<u8>),
    /// A timed pause inside the transaction; the bus itself is idle.
    Delay(u32),
    /// All previously submitted bytes were physically clocked out.
    Flush,
}

/// The mathematical shape of a captured bus event.
pub ghost enum Event {
    Select(u32),
    Deselect(u32),
    Read(Seq<u8>),
    Write(Seq<u8>),
    Transfer(Seq<u8>, Seq<u8>),
    TransferInPlace(Seq<u8>, Seq<u8>),
    Delay(u32),
    Flush,
}

impl View for BusEvent {
    type V = Event;

    open spec fn view(&self) -> Event {
        match self {
            BusEvent::Select(cs) => Event::Select(*cs),
            BusEvent::Deselect(cs) => Event::Deselect(*cs),
            BusEvent::Read(data) => Event::Read(data@),
            BusEvent::Write(data) => Event::Write(data@),
            BusEvent::Transfer(tx, rx) => Event::Transfer(tx@, rx@),
            BusEvent::TransferInPlace(tx, rx) => Event::TransferInPlace(tx@, rx@),
            BusEvent::Delay(ns) => Event::Delay(*ns),
            BusEvent::Flush => Event::Flush,
        }
    }
}

/// Whether an event is data traffic on the bus. Chip-select edges, delays
/// and flushes are framing, not traffic: a transaction whose operations are
/// all zero-length still frames itself but produces no traffic.
pub open spec fn is_traffic(e: Event) -> bool {
    match e {
        Event::Read(_) => true,
        Event::Write(_) => true,
        Event::Transfer(_, _) => true,
        Event::TransferInPlace(_, _) => true,
        _ => false,
    }
}

/// Whether an event is a chip-select edge.
pub open spec fn is_cs_edge(e: Event) -> bool {
    match e {
        Event::Select(_) => true,
        Event::Deselect(_) => true,
        _ => false,
    }
}

/// The data traffic contained in a captured trace, framing stripped.
pub open spec fn traffic(t: Seq<Event>) -> Seq<Event> {
    t.filter(|e: Event| is_traffic(e))
}

/// The mathematical trace behind a captured one.
pub open spec fn events_view(t: Seq<BusEvent>) -> Seq<Event> {
    t.map_values(|e: BusEvent| e@)
}

} // verus!
