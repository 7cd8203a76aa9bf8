use wattson::protocol::{
    build_query_id, build_read_calibration, build_set_config, checksum, Frame, FrameKind,
    FrameParser, SamplingRate,
};

// ─── Frame Builder Tests ────────────────────────────────────────────

#[test]
fn test_checksum_query_id() {
    // CMD=0x80, LEN=0, no data
    // checksum = 0x80 + 0x00 + 0xFF = 0x17F -> 0x7F
    assert_eq!(checksum(0x80, 0x00, &[]), 0x7F);
}

#[test]
fn test_build_query_id_frame() {
    let frame = build_query_id();
    assert_eq!(frame, vec![0x55, 0xAA, 0x80, 0x00, 0xFF, 0x7F]);
}

#[test]
fn test_build_set_config_frame() {
    let frame = build_set_config(SamplingRate::Hz640);
    assert_eq!(frame[0..2], [0x55, 0xAA]);
    assert_eq!(frame[2], 0x83); // CMD
    assert_eq!(frame[3], 0x01); // LEN
    assert_eq!(frame[4], 0xFE); // ~LEN
    assert_eq!(frame[5], 0x02); // rate index for 640Hz
}

#[test]
fn test_build_read_calibration_frame() {
    let frame = build_read_calibration(0x0005); // freq index 5
    assert_eq!(frame[0..2], [0x55, 0xAA]);
    assert_eq!(frame[2], 0x86); // CMD
    assert_eq!(frame[3], 0x02); // LEN
    assert_eq!(frame[4], 0xFD); // ~LEN
    assert_eq!(frame[5], 0x00); // freq index high byte
    assert_eq!(frame[6], 0x05); // freq index low byte
}

// ─── Frame Parser Tests ─────────────────────────────────────────────

#[test]
fn test_parse_id_response() {
    let mut data = vec![0x55, 0xAA, 0x00, 0x08, 0xF7];
    let payload: Vec<u8> = vec![
        0x00, 0x65, // ID = 101
        0x00, 0x7B, // VER = 123 -> v1.23
        0x00, 0x00, 0x30, 0x39, // SN = 12345
    ];
    data.extend_from_slice(&payload);
    data.push(checksum(0x00, 0x08, &payload));

    let mut parser = FrameParser::new();
    parser.feed(&data);
    let frame = parser.next_frame().unwrap();
    match frame {
        Frame::DeviceId {
            model_id,
            firmware_version,
            serial_number,
        } => {
            assert_eq!(model_id, 101);
            assert_eq!(firmware_version, 123);
            assert_eq!(serial_number, 12345);
        }
        _ => panic!("expected DeviceId frame"),
    }
}

#[test]
fn test_parse_power_data() {
    let mut data = vec![0x55, 0xAA, 0x06, 0x04, 0xFB];
    let payload: Vec<u8> = vec![0x00, 0x3F, 0xFF, 0xFF];
    data.extend_from_slice(&payload);
    data.push(checksum(0x06, 0x04, &payload));

    let mut parser = FrameParser::new();
    parser.feed(&data);
    let frame = parser.next_frame().unwrap();
    match frame {
        Frame::PowerData { adc_value } => {
            assert_eq!(adc_value, 0x003FFFFF);
        }
        _ => panic!("expected PowerData frame"),
    }
}

#[test]
fn test_parse_config_ack() {
    let mut data = vec![0x55, 0xAA, 0x03, 0x01, 0xFE];
    let payload: Vec<u8> = vec![0x02]; // 640 Hz
    data.extend_from_slice(&payload);
    data.push(checksum(0x03, 0x01, &payload));

    let mut parser = FrameParser::new();
    parser.feed(&data);
    let frame = parser.next_frame().unwrap();
    match frame {
        Frame::ConfigAck { rate } => {
            assert_eq!(rate, SamplingRate::Hz640);
        }
        _ => panic!("expected ConfigAck frame"),
    }
}

#[test]
fn test_parse_calibration_response() {
    let mut payload = vec![0x00, 0x05]; // freq index 5
    for i in 0..21u32 {
        let v = (i as f32) * 10.0;
        payload.extend_from_slice(&v.to_le_bytes());
    }
    let len = payload.len() as u8;
    let mut data = vec![0x55, 0xAA, 0x05, len, !len];
    data.extend_from_slice(&payload);
    data.push(checksum(0x05, len, &payload));

    let mut parser = FrameParser::new();
    parser.feed(&data);
    let frame = parser.next_frame().unwrap();
    match frame {
        Frame::CalibrationData {
            freq_index,
            voltages,
        } => {
            assert_eq!(freq_index, 5);
            assert_eq!(voltages.len(), 21);
            assert!((f32::from_bits(voltages[0]) - 0.0).abs() < 0.001);
            assert!((f32::from_bits(voltages[2]) - 20.0).abs() < 0.001);
        }
        _ => panic!("expected CalibrationData frame"),
    }
}

#[test]
fn test_parser_handles_partial_data() {
    let full = build_query_id();
    let mut parser = FrameParser::new();
    for &b in &full[..full.len() - 1] {
        parser.feed(&[b]);
        assert!(parser.next_frame().is_none());
    }
    parser.feed(&[0x00, 0x00, 0x55, 0xAA]);
    // No crash = pass
}

#[test]
fn test_parser_resyncs_after_garbage() {
    let mut data = vec![0xFF, 0xFF, 0x00, 0x55]; // garbage
    let payload: Vec<u8> = vec![0x00, 0x00, 0x10, 0x00]; // ADC = 4096
    data.extend_from_slice(&[0x55, 0xAA, 0x06, 0x04, 0xFB]);
    data.extend_from_slice(&payload);
    data.push(checksum(0x06, 0x04, &payload));

    let mut parser = FrameParser::new();
    parser.feed(&data);
    let frame = parser.next_frame().unwrap();
    match frame {
        Frame::PowerData { adc_value } => {
            assert_eq!(adc_value, 0x00001000);
        }
        _ => panic!("expected PowerData"),
    }
}

// ─── Further behaviour of the framing ───────────────────────────────

fn device_frame(cmd: u8, payload: &[u8]) -> Vec<u8> {
    let len = payload.len() as u8;
    let mut data = vec![0x55, 0xAA, cmd, len, !len];
    data.extend_from_slice(payload);
    data.push(checksum(cmd, len, payload));
    data
}

#[test]
fn checksum_wraps_and_ignores_length_field() {
    // 0x10 + 0x02 + 0xFD + 0xF0 + 0x20 = 0x21F -> 0x1F
    assert_eq!(checksum(0x10, 0x02, &[0xF0, 0x20]), 0x1F);
    // LEN + ~LEN is always 0xFF, whatever LEN is.
    assert_eq!(checksum(0x10, 0x00, &[0xF0, 0x20]), 0x1F);
}

#[test]
fn built_frames_carry_a_checksum_over_cmd_through_data() {
    for frame in [
        build_query_id(),
        build_set_config(SamplingRate::Hz1280),
        build_read_calibration(0x1234),
    ] {
        let body = &frame[2..frame.len() - 1];
        let sum: u32 = body.iter().map(|&b| b as u32).sum();
        assert_eq!(*frame.last().unwrap() as u32, sum % 256);
    }
    assert_eq!(build_read_calibration(0x1234)[5..7], [0x12, 0x34]);
}

#[test]
fn parser_takes_frames_in_order_and_keeps_the_rest() {
    let mut data = device_frame(0x06, &[0, 0, 0, 1]);
    data.extend(device_frame(0x03, &[0x01]));
    data.extend_from_slice(&[0x55, 0xAA, 0x06]); // start of a third frame
    let mut parser = FrameParser::new();
    parser.feed(&data);
    assert_eq!(parser.next_frame(), Some(Frame::PowerData { adc_value: 1 }));
    assert_eq!(
        parser.next_frame(),
        Some(Frame::ConfigAck {
            rate: SamplingRate::Hz40
        })
    );
    assert_eq!(parser.next_frame(), None);
    // The rest of the third frame completes it.
    parser.feed(&[0x04, 0xFB, 0, 0, 0, 7, 0x06u8.wrapping_add(0x04).wrapping_add(0xFB).wrapping_add(7)]);
    assert_eq!(parser.next_frame(), Some(Frame::PowerData { adc_value: 7 }));
    assert_eq!(parser.next_frame(), None);
}

#[test]
fn parser_drops_corrupt_and_unknown_frames() {
    let mut bad_checksum = device_frame(0x06, &[0, 0, 0, 9]);
    *bad_checksum.last_mut().unwrap() ^= 0xFF;
    let mut data = bad_checksum;
    data.extend_from_slice(&[0x55, 0xAA, 0x06, 0x04, 0x00]); // ~LEN mismatch
    data.extend(device_frame(0x80, &[])); // a host command: not decoded
    data.extend(device_frame(0x00, &[1, 2])); // ID response of the wrong length
    data.extend(device_frame(0x03, &[0x09])); // unknown rate index
    data.extend(device_frame(0x06, &[0x12, 0x34, 0x56, 0x78]));
    let mut parser = FrameParser::new();
    parser.feed(&data);
    assert_eq!(
        parser.next_frame(),
        Some(Frame::PowerData {
            adc_value: 0x12345678
        })
    );
    assert_eq!(parser.next_frame(), None);
}

#[test]
fn parser_without_sync_yields_nothing() {
    let mut parser = FrameParser::new();
    parser.feed(&[0x01, 0x02, 0x55]);
    assert_eq!(parser.next_frame(), None);
    // A sync pair split across two feeds is still found.
    let mut rest = vec![0xAA, 0x06, 0x04, 0xFB, 0, 0, 0, 2];
    rest.push(checksum(0x06, 0x04, &[0, 0, 0, 2]));
    parser.feed(&rest);
    assert_eq!(parser.next_frame(), Some(Frame::PowerData { adc_value: 2 }));
}

#[test]
fn calibration_payload_ignores_trailing_partial_value() {
    // 2 index bytes, one full value and three stray bytes.
    let payload = [0x01, 0x02, 0x00, 0x00, 0x80, 0x3F, 0xAA, 0xBB, 0xCC];
    let mut parser = FrameParser::new();
    parser.feed(&device_frame(0x05, &payload));
    match parser.next_frame() {
        Some(Frame::CalibrationData {
            freq_index,
            voltages,
        }) => {
            assert_eq!(freq_index, 0x0102);
            assert_eq!(voltages, vec![0x3F80_0000]);
            assert_eq!(f32::from_bits(voltages[0]), 1.0);
        }
        other => panic!("unexpected {:?}", other),
    }
}

#[test]
fn frame_kinds() {
    assert_eq!(Frame::PowerData { adc_value: 0 }.kind(), FrameKind::PowerData);
    assert_eq!(
        Frame::CalibrationData {
            freq_index: 0,
            voltages: vec![]
        }
        .kind(),
        FrameKind::CalibrationData
    );
}

#[test]
fn sampling_rates_cycle_and_round_trip() {
    let mut rate = SamplingRate::Hz10;
    let mut labels = Vec::new();
    for _ in 0..4 {
        assert_eq!(SamplingRate::from_index(rate.index()), Some(rate));
        labels.push(rate.label());
        rate = rate.next();
    }
    assert_eq!(rate, SamplingRate::Hz10);
    assert_eq!(labels, vec!["10 Hz", "40 Hz", "640 Hz", "1280 Hz"]);
    assert_eq!(SamplingRate::from_index(4), None);
    assert_eq!(SamplingRate::from_index(255), None);
}
