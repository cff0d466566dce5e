//! Arbitration between two adapters on one shared handle: mutual
//! exclusion, release on failure, and bridge fidelity.

use tugger_bus::adapter::LogicalDeviceAdapter;
use tugger_bus::bridge::ConcurrencyBridge;
use tugger_bus::bus::Bus;
use tugger_bus::errors::BusError;
use tugger_bus::handle::SharedTransportHandle;
use tugger_bus::ops::Operation;
use tugger_bus::trace::BusEvent;

const CS_DISPLAY: u32 = 4;
const CS_RADIO: u32 = 8;

fn fresh(rx_fill: u8, fail_in: Option<usize>) -> SharedTransportHandle {
    SharedTransportHandle::new(Bus::new(rx_fill, fail_in))
}

/// Every chip-select window in the trace is complete and exclusive: it
/// opens with a select, closes with a deselect of the same line, and no
/// other chip-select edge falls inside it.
fn assert_windows_are_exclusive(trace: &[BusEvent]) {
    let mut open: Option<u32> = None;
    for event in trace {
        match event {
            BusEvent::Select(cs) => {
                assert!(open.is_none(), "select inside an open window");
                open = Some(*cs);
            }
            BusEvent::Deselect(cs) => {
                assert_eq!(open, Some(*cs), "deselect without a matching select");
                open = None;
            }
            _ => assert!(open.is_some(), "bus event outside any window"),
        }
    }
    assert!(open.is_none(), "window left open at the end of the trace");
}

fn display_ops() -> Vec<Operation> {
    vec![
        Operation::Write(vec![0x01, 0x02]),
        Operation::DelayNs(2_000_000),
        Operation::Read(4),
    ]
}

fn radio_ops() -> Vec<Operation> {
    vec![Operation::Transfer(vec![0xAA], 2)]
}

fn expected_display_frame(rx: u8) -> Vec<BusEvent> {
    vec![
        BusEvent::Select(CS_DISPLAY),
        BusEvent::Write(vec![0x01, 0x02]),
        BusEvent::Delay(2_000_000),
        BusEvent::Read(vec![rx; 4]),
        BusEvent::Flush,
        BusEvent::Deselect(CS_DISPLAY),
    ]
}

fn expected_radio_frame(rx: u8) -> Vec<BusEvent> {
    vec![
        BusEvent::Select(CS_RADIO),
        BusEvent::Transfer(vec![0xAA], vec![rx; 2]),
        BusEvent::Flush,
        BusEvent::Deselect(CS_RADIO),
    ]
}

#[test]
fn end_to_end_display_then_radio() {
    let mut handle = fresh(0x00, None);
    let mut display = LogicalDeviceAdapter::new(CS_DISPLAY);
    let mut radio = LogicalDeviceAdapter::new(CS_RADIO);

    let display_reads = display.run(&mut handle, &display_ops()).unwrap();
    let radio_reads = radio.run(&mut handle, &radio_ops()).unwrap();
    assert_eq!(display_reads, vec![vec![0x00; 4]]);
    assert_eq!(radio_reads, vec![vec![0x00; 2]]);

    let mut expected = expected_display_frame(0x00);
    expected.extend(expected_radio_frame(0x00));
    assert_eq!(handle.trace(), &expected);
    assert_windows_are_exclusive(handle.trace());
}

#[test]
fn end_to_end_radio_then_display() {
    let mut handle = fresh(0x00, None);
    let mut display = LogicalDeviceAdapter::new(CS_DISPLAY);
    let mut radio = LogicalDeviceAdapter::new(CS_RADIO);

    radio.run(&mut handle, &radio_ops()).unwrap();
    display.run(&mut handle, &display_ops()).unwrap();

    let mut expected = expected_radio_frame(0x00);
    expected.extend(expected_display_frame(0x00));
    assert_eq!(handle.trace(), &expected);
    assert_windows_are_exclusive(handle.trace());
}

#[test]
fn release_on_failure_lets_the_other_adapter_proceed() {
    // The fault fires on the display's second write; the radio's later
    // transaction must succeed, and the trace must show exactly one
    // complete display window before the radio's.
    let mut handle = fresh(0x00, Some(1));
    let mut display = LogicalDeviceAdapter::new(CS_DISPLAY);
    let mut radio = LogicalDeviceAdapter::new(CS_RADIO);

    let ops = vec![Operation::Write(vec![0x01]), Operation::Write(vec![0x02])];
    let result = display.run(&mut handle, &ops);
    assert_eq!(result, Err(BusError::TransportFault));
    assert!(!handle.is_locked());
    assert!(!display.is_selected());

    let radio_reads = radio.run(&mut handle, &radio_ops()).unwrap();
    assert_eq!(radio_reads, vec![vec![0x00; 2]]);

    let mut expected = vec![
        BusEvent::Select(CS_DISPLAY),
        BusEvent::Write(vec![0x01]),
        BusEvent::Flush,
        BusEvent::Deselect(CS_DISPLAY),
    ];
    expected.extend(expected_radio_frame(0x00));
    assert_eq!(handle.trace(), &expected);
    assert_windows_are_exclusive(handle.trace());

    let deselects = handle
        .trace()
        .iter()
        .filter(|e| matches!(e, BusEvent::Deselect(cs) if *cs == CS_DISPLAY))
        .count();
    assert_eq!(deselects, 1, "chip-select must be deasserted exactly once");
}

#[test]
fn failing_transaction_never_retries_remaining_ops() {
    let mut handle = fresh(0x00, Some(0));
    let mut display = LogicalDeviceAdapter::new(CS_DISPLAY);
    let ops = vec![Operation::Write(vec![0x01]), Operation::Write(vec![0x02])];
    let result = display.run(&mut handle, &ops);
    assert_eq!(result, Err(BusError::TransportFault));
    // Neither the failed write nor any later operation reached the bus.
    let writes = handle
        .trace()
        .iter()
        .filter(|e| matches!(e, BusEvent::Write(_)))
        .count();
    assert_eq!(writes, 0);
}

#[test]
fn bridge_produces_identical_traffic() {
    let ops = display_ops();

    let mut direct_handle = fresh(0x42, None);
    let mut direct = LogicalDeviceAdapter::new(CS_DISPLAY);
    let direct_reads = direct.run(&mut direct_handle, &ops).unwrap();

    let mut bridged_handle = fresh(0x42, None);
    let mut bridged = ConcurrencyBridge::new(LogicalDeviceAdapter::new(CS_DISPLAY));
    let bridged_reads = bridged.run(&mut bridged_handle, &ops).unwrap();

    assert_eq!(direct_reads, bridged_reads);
    assert_eq!(direct_handle.trace(), bridged_handle.trace());
    assert!(!bridged.is_selected());

    let inner = bridged.into_adapter();
    assert_eq!(inner.chip_select(), CS_DISPLAY);
}

#[test]
fn bridge_reports_the_same_failures() {
    let ops = vec![Operation::Write(vec![0x01]), Operation::Write(vec![0x02])];

    let mut direct_handle = fresh(0x00, Some(1));
    let mut direct = LogicalDeviceAdapter::new(CS_RADIO);
    let direct_result = direct.run(&mut direct_handle, &ops);

    let mut bridged_handle = fresh(0x00, Some(1));
    let mut bridged = ConcurrencyBridge::new(LogicalDeviceAdapter::new(CS_RADIO));
    let bridged_result = bridged.run(&mut bridged_handle, &ops);

    assert_eq!(direct_result, bridged_result);
    assert_eq!(direct_result, Err(BusError::TransportFault));
    assert_eq!(direct_handle.trace(), bridged_handle.trace());
    assert!(!bridged_handle.is_locked());
}

#[test]
fn alternating_adapters_keep_serializing() {
    let mut handle = fresh(0x00, None);
    let mut display = LogicalDeviceAdapter::new(CS_DISPLAY);
    let mut radio = LogicalDeviceAdapter::new(CS_RADIO);
    for round in 0..3u8 {
        display
            .run(&mut handle, &vec![Operation::Write(vec![round])])
            .unwrap();
        radio
            .run(&mut handle, &vec![Operation::Write(vec![0xF0 | round])])
            .unwrap();
    }
    assert_eq!(handle.trace().len(), 6 * 4);
    assert_windows_are_exclusive(handle.trace());
    assert!(!handle.is_locked());
}
