use vstd::prelude::*;

use crate::bus::{
    bytes_result_matches, model_delay, model_flush, model_push, model_read, model_transfer,
    model_transfer_in_place, model_write, Bus, BusModel,
};
use crate::errors::BusError;
use crate::trace::{events_view, BusEvent, Event};

verus! {

/// The mathematical state of the shared handle: the transport it guards
/// and who, if anyone, currently holds it.
pub ghost struct HandleModel {
    pub bus: BusModel,
    /// The chip-select id of the adapter holding the lock, if any.
    pub holder: Option<u32>,
}

/// The mutual-exclusion wrapper around the one physical transport. It
/// exposes the transport's primitive operations, but only to the current
/// lock holder: every primitive requires the lock to be held, so all bus
/// traffic system-wide is serialized through this handle.
///
/// The lock is a plain mutual-exclusion lock, not reentrant: an adapter
/// acquires it at most once per transaction. Whoever requests next after a
/// release wins; no fairness order is scheduled between the peripherals.
pub struct SharedTransportHandle {
    bus: Bus,
    holder: Option<u32>,
}

impl View for SharedTransportHandle {
    type V = HandleModel;

    closed spec fn view(&self) -> HandleModel {
        HandleModel { bus: self.bus@, holder: self.holder }
    }
}

impl SharedTransportHandle {
    /// Take sole ownership of the transport; the lock starts released.
    pub fn new(bus: Bus) -> (h: SharedTransportHandle)
        ensures
            h@ == (HandleModel { bus: bus@, holder: Option::None }),
    {
        SharedTransportHandle { bus, holder: Option::None }
    }

    /// Whether some adapter currently holds the lock.
    pub fn is_locked(&self) -> (b: bool)
        ensures
            b == (self@.holder is Some),
    {
        self.holder.is_some()
    }

    /// Try to take the lock for the adapter with chip-select `id`. Fails
    /// exactly when the lock is already held, and never touches the bus.
    pub fn try_acquire(&mut self, id: u32) -> (ok: bool)
        ensures
            final(self)@.bus == old(self)@.bus,
            ok == (old(self)@.holder is None),
            ok ==> final(self)@.holder == Option::Some(id),
            !ok ==> final(self)@.holder == old(self)@.holder,
    {
        match self.holder {
            Option::Some(_) => false,
            Option::None => {
                self.holder = Option::Some(id);
                true
            },
        }
    }

    /// Release the lock. Only the current holder may release, and release
    /// never touches the bus.
    pub fn release(&mut self, id: u32)
        requires
            old(self)@.holder == Option::Some(id),
        ensures
            final(self)@ == (HandleModel { bus: old(self)@.bus, holder: Option::None }),
    {
        self.holder = Option::None;
    }

    /// Read `len` bytes; only for the lock holder.
    pub fn read(&mut self, len: usize) -> (r: Result<Vec<u8>, BusError>)
        requires
            old(self)@.holder is Some,
        ensures
            final(self)@.holder == old(self)@.holder,
            final(self)@.bus == model_read(old(self)@.bus, len).0,
            bytes_result_matches(r, model_read(old(self)@.bus, len).1),
    {
        self.bus.read(len)
    }

    /// Write `data`; only for the lock holder.
    pub fn write(&mut self, data: &Vec<u8>) -> (r: Result<(), BusError>)
        requires
            old(self)@.holder is Some,
        ensures
            final(self)@.holder == old(self)@.holder,
            final(self)@.bus == model_write(old(self)@.bus, data@).0,
            r == model_write(old(self)@.bus, data@).1,
    {
        self.bus.write(data)
    }

    /// Exchange bytes full-duplex; only for the lock holder.
    pub fn transfer(&mut self, tx: &Vec<u8>, rx_len: usize) -> (r: Result<Vec<u8>, BusError>)
        requires
            old(self)@.holder is Some,
        ensures
            final(self)@.holder == old(self)@.holder,
            final(self)@.bus == model_transfer(old(self)@.bus, tx@, rx_len).0,
            bytes_result_matches(r, model_transfer(old(self)@.bus, tx@, rx_len).1),
    {
        self.bus.transfer(tx, rx_len)
    }

    /// Exchange bytes full-duplex in place; only for the lock holder.
    pub fn transfer_in_place(&mut self, buf: &Vec<u8>) -> (r: Result<Vec<u8>, BusError>)
        requires
            old(self)@.holder is Some,
        ensures
            final(self)@.holder == old(self)@.holder,
            final(self)@.bus == model_transfer_in_place(old(self)@.bus, buf@).0,
            bytes_result_matches(r, model_transfer_in_place(old(self)@.bus, buf@).1),
    {
        self.bus.transfer_in_place(buf)
    }

    /// Flush the transport; only for the lock holder.
    pub fn flush(&mut self) -> (r: Result<(), BusError>)
        requires
            old(self)@.holder is Some,
        ensures
            final(self)@.holder == old(self)@.holder,
            final(self)@.bus == model_flush(old(self)@.bus).0,
            r == model_flush(old(self)@.bus).1,
    {
        self.bus.flush()
    }

    /// Pause inside the critical section; only for the lock holder.
    pub fn note_delay(&mut self, ns: u32)
        requires
            old(self)@.holder is Some,
        ensures
            final(self)@.holder == old(self)@.holder,
            final(self)@.bus == model_delay(old(self)@.bus, ns),
    {
        self.bus.note_delay(ns);
    }

    /// Drive a chip-select line active; only for the lock holder, so a
    /// chip-select assertion can never outlive a critical section.
    pub fn select(&mut self, cs: u32)
        requires
            old(self)@.holder is Some,
        ensures
            final(self)@.holder == old(self)@.holder,
            final(self)@.bus == model_push(old(self)@.bus, Event::Select(cs)),
    {
        self.bus.select(cs);
    }

    /// Drive a chip-select line back to idle; only for the lock holder.
    pub fn deselect(&mut self, cs: u32)
        requires
            old(self)@.holder is Some,
        ensures
            final(self)@.holder == old(self)@.holder,
            final(self)@.bus == model_push(old(self)@.bus, Event::Deselect(cs)),
    {
        self.bus.deselect(cs);
    }

    /// The capture of everything observed on the bus so far.
    pub fn trace(&self) -> (t: &Vec<BusEvent>)
        ensures
            events_view(t@) == self@.bus.trace,
    {
        self.bus.trace()
    }
}

} // verus!
