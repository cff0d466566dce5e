use vstd::prelude::*;

use crate::adapter::LogicalDeviceAdapter;
use crate::bus::BusModel;
use crate::errors::BusError;
use crate::handle::SharedTransportHandle;
use crate::ops::{ops_view, Operation, OpSpec};
use crate::transaction::{model_transaction, reads_view};

verus! {

/// What a bridged transaction does to the transport. The bridge runs the
/// wrapped adapter's synchronous transaction to completion and then hands
/// control back to the caller's scheduler exactly once; the hand-back puts
/// nothing on the bus, so the bridged model is the direct one, event for
/// event. [`crate::laws::lemma_bridge_fidelity`] states this coincidence.
pub open spec fn model_bridge_transaction(m: BusModel, cs: u32, ops: Seq<OpSpec>) -> (
    BusModel,
    Seq<Seq<u8>>,
    Option<BusError>,
) {
    model_transaction(m, cs, ops)
}

/// The concurrency bridge: the same transaction interface as the wrapped
/// [`LogicalDeviceAdapter`], offered to callers that are cooperatively
/// scheduled around their bus transactions. The bridge holds exactly one
/// adapter and keeps no state of its own between calls.
///
/// Each request is delegated to one synchronous transaction that runs to
/// completion before control goes back to the caller's scheduler. That is a
/// deliberate, bounded fidelity gap: the underlying transport is
/// synchronous end to end, so a caller may be scheduled around a bridged
/// transaction, never during one — while a bridged transaction executes,
/// the calling context is not free to interleave other work. The bus
/// traffic itself is byte-for-byte what a direct call on the wrapped
/// adapter would produce: both are pinned to the same
/// [`model_transaction`].
pub struct ConcurrencyBridge {
    adapter: LogicalDeviceAdapter,
}

impl ConcurrencyBridge {
    /// The chip-select id of the wrapped adapter.
    pub closed spec fn cs_id(&self) -> u32 {
        self.adapter.cs_id()
    }

    /// Whether the wrapped adapter currently drives its chip-select active.
    pub closed spec fn cs_is_asserted(&self) -> bool {
        self.adapter.cs_is_asserted()
    }

    /// The id of the wrapped adapter's chip-select line.
    pub fn chip_select(&self) -> (cs: u32)
        ensures
            cs == self.cs_id(),
    {
        self.adapter.chip_select()
    }

    /// Whether the wrapped adapter's chip-select line is driven active.
    pub fn is_selected(&self) -> (b: bool)
        ensures
            b == self.cs_is_asserted(),
    {
        self.adapter.is_selected()
    }

    /// Wrap one adapter.
    pub fn new(adapter: LogicalDeviceAdapter) -> (b: ConcurrencyBridge)
        ensures
            b.cs_id() == adapter.cs_id(),
            b.cs_is_asserted() == adapter.cs_is_asserted(),
    {
        ConcurrencyBridge { adapter }
    }

    /// Hand the wrapped adapter back out.
    pub fn into_adapter(self) -> (a: LogicalDeviceAdapter)
        ensures
            a.cs_id() == self.cs_id(),
            a.cs_is_asserted() == self.cs_is_asserted(),
    {
        self.adapter
    }

    /// Run one transaction through the wrapped adapter, to completion,
    /// under the adapter's own contract: the effect on the bus is exactly
    /// [`model_transaction`] — identical to a direct
    /// [`LogicalDeviceAdapter::run`] from the same starting state.
    pub fn run(&mut self, handle: &mut SharedTransportHandle, ops: &Vec<Operation>) -> (r: Result<
        Vec<Vec<u8>>,
        BusError,
    >)
        ensures
            final(self).cs_id() == old(self).cs_id(),
            !final(self).cs_is_asserted(),
            old(handle)@.holder is Some ==> final(handle)@ == old(handle)@ && r == Err::<
                Vec<Vec<u8>>,
                BusError,
            >(BusError::LockMisuse),
            old(handle)@.holder is None ==> ({
                let t = model_bridge_transaction(
                    old(handle)@.bus,
                    old(self).cs_id(),
                    ops_view(ops@),
                );
                &&& final(handle)@.holder is None
                &&& final(handle)@.bus == t.0
                &&& (match r {
                    Ok(v) => t.2 is None && reads_view(v@) == t.1,
                    Err(e) => t.2 == Option::Some(e),
                })
            }),
    {
        self.adapter.run(handle, ops)
    }
}

} // verus!
