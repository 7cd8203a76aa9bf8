use wattson::device::{
    format_firmware_version, is_meter_port, model_display_name, DeviceInit, InitEvent,
    InitPhase, Next, WaitOutcome,
};
use wattson::protocol::{
    build_query_id, build_read_calibration, build_set_config, Frame, FrameKind, SamplingRate,
};

fn id_frame(model_id: u16) -> WaitOutcome {
    WaitOutcome::Received(Frame::DeviceId {
        model_id,
        firmware_version: 123,
        serial_number: 12345,
    })
}

fn row_frame(freq_index: u16, n: usize) -> WaitOutcome {
    WaitOutcome::Received(Frame::CalibrationData {
        freq_index,
        voltages: (0..n as u32).map(|i| i + 1000 * freq_index as u32).collect(),
    })
}

fn awaits(next: &Next, kind: FrameKind) -> bool {
    matches!(next, Next::Await(k) if *k == kind)
}

#[test]
fn firmware_versions_have_two_digit_minor_parts() {
    assert_eq!(format_firmware_version(123), "1.23");
    assert_eq!(format_firmware_version(105), "1.05");
    assert_eq!(format_firmware_version(7), "0.07");
    assert_eq!(format_firmware_version(2000), "20.00");
    assert_eq!(format_firmware_version(65535), "655.35");
}

#[test]
fn model_names_for_display() {
    assert_eq!(model_display_name(103), "RPM-9G");
    assert_eq!(model_display_name(108), "RPM-20GS OPT260");
    assert_eq!(model_display_name(0), "Unknown (0)");
    assert_eq!(model_display_name(999), "Unknown (999)");
}

#[test]
fn meter_is_recognised_by_usb_ids() {
    assert!(is_meter_port(0x1a86, 0x7523));
    assert!(!is_meter_port(0x1a86, 0x7524));
    assert!(!is_meter_port(0x0403, 0x7523));
}

#[test]
fn full_start_up_loads_every_row_in_order() {
    let mut init = DeviceInit::new(SamplingRate::Hz40);
    let step = init.start();
    assert_eq!(step.send, Some(build_query_id()));
    assert!(awaits(&step.next, FrameKind::DeviceId));

    let step = init.on_outcome(id_frame(102));
    match &step.events[..] {
        [InitEvent::Connected {
            model_id,
            model_name,
            firmware_version,
            serial_number,
        }] => {
            assert_eq!(*model_id, 102);
            assert_eq!(model_name, "RPM-3GS");
            assert_eq!(firmware_version, "1.23");
            assert_eq!(*serial_number, 12345);
        }
        other => panic!("unexpected events {:?}", other),
    }
    assert_eq!(step.send, Some(build_set_config(SamplingRate::Hz40)));
    assert!(awaits(&step.next, FrameKind::ConfigAck));
    assert_eq!(init.phase(), InitPhase::Configuring { model_id: 102 });

    let step = init.on_outcome(WaitOutcome::Received(Frame::ConfigAck {
        rate: SamplingRate::Hz40,
    }));
    assert!(step.events.is_empty());
    assert_eq!(step.send, Some(build_read_calibration(0)));
    assert!(awaits(&step.next, FrameKind::CalibrationData));

    for row in 0..33u16 {
        let step = init.on_outcome(row_frame(row, 25));
        match &step.events[0] {
            InitEvent::CalibrationProgress { loaded, total } => {
                assert_eq!((*loaded, *total), (row as usize + 1, 33));
            }
            other => panic!("unexpected event {:?}", other),
        }
        if row < 32 {
            assert_eq!(step.events.len(), 1);
            assert_eq!(step.send, Some(build_read_calibration(row + 1)));
            assert!(awaits(&step.next, FrameKind::CalibrationData));
        } else {
            assert!(matches!(step.events[1], InitEvent::Ready));
            assert_eq!(step.send, None);
            assert!(matches!(step.next, Next::Stream));
        }
    }
    assert_eq!(init.phase(), InitPhase::Streaming);
    let cal = init.into_calibration().unwrap();
    assert_eq!(cal.spec.id, 102);
    for (row, voltages) in cal.voltage_table.iter().enumerate() {
        let expected: Vec<u32> = (0..25u32).map(|i| i + 1000 * row as u32).collect();
        assert_eq!(*voltages, expected);
    }
}

#[test]
fn timeouts_ask_again() {
    let mut init = DeviceInit::new(SamplingRate::Hz640);
    let step = init.on_outcome(WaitOutcome::TimedOut);
    match &step.events[..] {
        [InitEvent::Error(msg)] => {
            assert_eq!(msg, "No response to device ID query, retrying...")
        }
        other => panic!("unexpected events {:?}", other),
    }
    assert_eq!(step.send, Some(build_query_id()));
    assert_eq!(init.phase(), InitPhase::Querying);

    init.on_outcome(id_frame(101));
    let step = init.on_outcome(WaitOutcome::TimedOut);
    match &step.events[..] {
        [InitEvent::Error(msg)] => assert_eq!(msg, "No config acknowledgment, retrying..."),
        other => panic!("unexpected events {:?}", other),
    }
    assert_eq!(step.send, Some(build_set_config(SamplingRate::Hz640)));
    assert!(awaits(&step.next, FrameKind::ConfigAck));
}

#[test]
fn unknown_model_aborts() {
    let mut init = DeviceInit::new(SamplingRate::Hz640);
    let step = init.on_outcome(id_frame(42));
    match &step.events[..] {
        [InitEvent::Connected { model_name, .. }] => assert_eq!(model_name, "Unknown (42)"),
        other => panic!("unexpected events {:?}", other),
    }
    assert_eq!(step.send, None);
    match step.next {
        Next::Abort(msg) => assert_eq!(msg, "Unknown model ID: 42"),
        _ => panic!("expected abort"),
    }
    assert_eq!(init.phase(), InitPhase::Stopped);
    let step = init.on_outcome(WaitOutcome::TimedOut);
    assert!(step.events.is_empty());
    assert!(matches!(step.next, Next::Halted));
}

#[test]
fn a_row_gets_three_attempts() {
    let mut init = DeviceInit::new(SamplingRate::Hz640);
    init.on_outcome(id_frame(107));
    init.on_outcome(WaitOutcome::Received(Frame::ConfigAck {
        rate: SamplingRate::Hz640,
    }));
    init.on_outcome(row_frame(0, 41));
    // A row with the wrong index is waited past without asking again.
    let step = init.on_outcome(row_frame(5, 41));
    assert_eq!(step.send, None);
    assert!(awaits(&step.next, FrameKind::CalibrationData));
    // A timeout asks again.
    let step = init.on_outcome(WaitOutcome::TimedOut);
    assert_eq!(step.send, Some(build_read_calibration(1)));
    assert!(awaits(&step.next, FrameKind::CalibrationData));
    // The third failure gives up, after asking once more.
    let step = init.on_outcome(WaitOutcome::TimedOut);
    assert_eq!(step.send, Some(build_read_calibration(1)));
    match step.next {
        Next::Abort(msg) => assert_eq!(msg, "Failed to load calibration row 1 after 3 retries"),
        _ => panic!("expected abort"),
    }
    assert_eq!(init.phase(), InitPhase::Stopped);
}

#[test]
fn read_failures_abort_at_once() {
    let mut init = DeviceInit::new(SamplingRate::Hz10);
    init.on_outcome(id_frame(105));
    let step = init.on_outcome(WaitOutcome::Failed("Serial read error: gone".to_string()));
    assert!(step.events.is_empty());
    match step.next {
        Next::Abort(msg) => assert_eq!(msg, "Serial read error: gone"),
        _ => panic!("expected abort"),
    }
    let cal = init.into_calibration().unwrap();
    assert_eq!(cal.spec.id, 105);
}

#[test]
fn frames_of_other_kinds_are_waited_past() {
    let mut init = DeviceInit::new(SamplingRate::Hz10);
    let step = init.on_outcome(WaitOutcome::Received(Frame::PowerData { adc_value: 1 }));
    assert!(step.events.is_empty());
    assert_eq!(step.send, None);
    assert!(awaits(&step.next, FrameKind::DeviceId));
    assert_eq!(init.phase(), InitPhase::Querying);
}
