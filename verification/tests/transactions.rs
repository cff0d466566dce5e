//! Transactions seen through one adapter: framing, zero-length no-ops,
//! received data, fail-fast behaviour and the error taxonomy.

use tugger_bus::adapter::LogicalDeviceAdapter;
use tugger_bus::bus::Bus;
use tugger_bus::errors::BusError;
use tugger_bus::handle::SharedTransportHandle;
use tugger_bus::ops::Operation;
use tugger_bus::trace::BusEvent;
use tugger_bus::transaction::{next_step, TxStep};

const CS_DISPLAY: u32 = 4;

fn fresh(rx_fill: u8, fail_in: Option<usize>) -> SharedTransportHandle {
    SharedTransportHandle::new(Bus::new(rx_fill, fail_in))
}

#[test]
fn single_write_is_framed() {
    let mut handle = fresh(0x00, None);
    let mut adapter = LogicalDeviceAdapter::new(CS_DISPLAY);
    let ops = vec![Operation::Write(vec![0x01, 0x02])];
    let reads = adapter.run(&mut handle, &ops).unwrap();
    assert_eq!(reads, Vec::<Vec<u8>>::new());
    assert_eq!(
        handle.trace(),
        &vec![
            BusEvent::Select(CS_DISPLAY),
            BusEvent::Write(vec![0x01, 0x02]),
            BusEvent::Flush,
            BusEvent::Deselect(CS_DISPLAY),
        ]
    );
    assert!(!handle.is_locked());
    assert!(!adapter.is_selected());
}

#[test]
fn read_returns_fill_bytes() {
    let mut handle = fresh(0x5A, None);
    let mut adapter = LogicalDeviceAdapter::new(CS_DISPLAY);
    let ops = vec![Operation::Read(3)];
    let reads = adapter.run(&mut handle, &ops).unwrap();
    assert_eq!(reads, vec![vec![0x5A, 0x5A, 0x5A]]);
    assert_eq!(
        handle.trace(),
        &vec![
            BusEvent::Select(CS_DISPLAY),
            BusEvent::Read(vec![0x5A, 0x5A, 0x5A]),
            BusEvent::Flush,
            BusEvent::Deselect(CS_DISPLAY),
        ]
    );
}

#[test]
fn transfer_sends_and_receives() {
    let mut handle = fresh(0x77, None);
    let mut adapter = LogicalDeviceAdapter::new(CS_DISPLAY);
    let ops = vec![Operation::Transfer(vec![0xAA], 2)];
    let reads = adapter.run(&mut handle, &ops).unwrap();
    assert_eq!(reads, vec![vec![0x77, 0x77]]);
    assert_eq!(
        handle.trace(),
        &vec![
            BusEvent::Select(CS_DISPLAY),
            BusEvent::Transfer(vec![0xAA], vec![0x77, 0x77]),
            BusEvent::Flush,
            BusEvent::Deselect(CS_DISPLAY),
        ]
    );
}

#[test]
fn transfer_in_place_overwrites_with_received() {
    let mut handle = fresh(0x5A, None);
    let mut adapter = LogicalDeviceAdapter::new(CS_DISPLAY);
    let ops = vec![Operation::TransferInPlace(vec![0xAA, 0xBB])];
    let reads = adapter.run(&mut handle, &ops).unwrap();
    assert_eq!(reads, vec![vec![0x5A, 0x5A]]);
    assert_eq!(
        handle.trace(),
        &vec![
            BusEvent::Select(CS_DISPLAY),
            BusEvent::TransferInPlace(vec![0xAA, 0xBB], vec![0x5A, 0x5A]),
            BusEvent::Flush,
            BusEvent::Deselect(CS_DISPLAY),
        ]
    );
}

#[test]
fn delay_stays_inside_the_window() {
    let mut handle = fresh(0x00, None);
    let mut adapter = LogicalDeviceAdapter::new(CS_DISPLAY);
    let ops = vec![
        Operation::Write(vec![0x10]),
        Operation::DelayNs(2_000_000),
        Operation::Write(vec![0x20]),
    ];
    adapter.run(&mut handle, &ops).unwrap();
    assert_eq!(
        handle.trace(),
        &vec![
            BusEvent::Select(CS_DISPLAY),
            BusEvent::Write(vec![0x10]),
            BusEvent::Delay(2_000_000),
            BusEvent::Write(vec![0x20]),
            BusEvent::Flush,
            BusEvent::Deselect(CS_DISPLAY),
        ]
    );
}

#[test]
fn zero_length_write_is_a_framed_noop() {
    let mut handle = fresh(0x00, None);
    let mut adapter = LogicalDeviceAdapter::new(CS_DISPLAY);
    let ops = vec![Operation::Write(vec![])];
    let reads = adapter.run(&mut handle, &ops).unwrap();
    assert_eq!(reads, Vec::<Vec<u8>>::new());
    // No traffic, yet the full assert/flush/deassert framing completes.
    assert_eq!(
        handle.trace(),
        &vec![
            BusEvent::Select(CS_DISPLAY),
            BusEvent::Flush,
            BusEvent::Deselect(CS_DISPLAY),
        ]
    );
}

#[test]
fn zero_length_read_and_transfer_are_noops() {
    let mut handle = fresh(0x5A, None);
    let mut adapter = LogicalDeviceAdapter::new(CS_DISPLAY);
    let ops = vec![
        Operation::Read(0),
        Operation::Transfer(vec![], 0),
        Operation::TransferInPlace(vec![]),
    ];
    let reads = adapter.run(&mut handle, &ops).unwrap();
    // Receiving operations still hand back their (empty) buffers.
    assert_eq!(reads, vec![vec![], vec![], Vec::<u8>::new()]);
    assert_eq!(
        handle.trace(),
        &vec![
            BusEvent::Select(CS_DISPLAY),
            BusEvent::Flush,
            BusEvent::Deselect(CS_DISPLAY),
        ]
    );
}

#[test]
fn failure_mid_transaction_aborts_remaining_ops() {
    // One successful fallible call, then the fault fires: the second write
    // fails, the third is never executed, yet flush and deassert complete.
    let mut handle = fresh(0x00, Some(1));
    let mut adapter = LogicalDeviceAdapter::new(CS_DISPLAY);
    let ops = vec![
        Operation::Write(vec![0x01]),
        Operation::Write(vec![0x02]),
        Operation::Write(vec![0x03]),
    ];
    let result = adapter.run(&mut handle, &ops);
    assert_eq!(result, Err(BusError::TransportFault));
    assert_eq!(
        handle.trace(),
        &vec![
            BusEvent::Select(CS_DISPLAY),
            BusEvent::Write(vec![0x01]),
            BusEvent::Flush,
            BusEvent::Deselect(CS_DISPLAY),
        ]
    );
    assert!(!handle.is_locked());
    assert!(!adapter.is_selected());
}

#[test]
fn flush_failure_is_reported_but_framing_completes() {
    // The write consumes the countdown; the mandatory flush fails. The
    // chip-select is still deasserted and the lock still released.
    let mut handle = fresh(0x00, Some(1));
    let mut adapter = LogicalDeviceAdapter::new(CS_DISPLAY);
    let ops = vec![Operation::Write(vec![0x01])];
    let result = adapter.run(&mut handle, &ops);
    assert_eq!(result, Err(BusError::TransportFault));
    assert_eq!(
        handle.trace(),
        &vec![
            BusEvent::Select(CS_DISPLAY),
            BusEvent::Write(vec![0x01]),
            BusEvent::Deselect(CS_DISPLAY),
        ]
    );
    assert!(!handle.is_locked());
}

#[test]
fn lock_misuse_is_rejected_without_touching_the_bus() {
    let mut handle = fresh(0x00, None);
    let mut adapter = LogicalDeviceAdapter::new(CS_DISPLAY);
    assert!(handle.try_acquire(99));
    let ops = vec![Operation::Write(vec![0x01])];
    let result = adapter.run(&mut handle, &ops);
    assert_eq!(result, Err(BusError::LockMisuse));
    assert!(handle.trace().is_empty());
    assert!(handle.is_locked());
    handle.release(99);
    // Once the stray hold is gone, the same request goes through.
    let reads = adapter.run(&mut handle, &ops).unwrap();
    assert_eq!(reads, Vec::<Vec<u8>>::new());
    assert_eq!(handle.trace().len(), 4);
}

#[test]
fn empty_transaction_still_frames_and_flushes() {
    let mut handle = fresh(0x00, None);
    let mut adapter = LogicalDeviceAdapter::new(CS_DISPLAY);
    let ops: Vec<Operation> = vec![];
    let reads = adapter.run(&mut handle, &ops).unwrap();
    assert_eq!(reads, Vec::<Vec<u8>>::new());
    assert_eq!(
        handle.trace(),
        &vec![
            BusEvent::Select(CS_DISPLAY),
            BusEvent::Flush,
            BusEvent::Deselect(CS_DISPLAY),
        ]
    );
}

#[test]
fn next_step_follows_fail_fast_order() {
    assert_eq!(next_step(3, 0, false), TxStep::Execute(0));
    assert_eq!(next_step(3, 2, false), TxStep::Execute(2));
    assert_eq!(next_step(3, 3, false), TxStep::Finish);
    assert_eq!(next_step(3, 1, true), TxStep::Finish);
    assert_eq!(next_step(0, 0, false), TxStep::Finish);
}
