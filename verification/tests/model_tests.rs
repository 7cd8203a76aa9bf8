use wattson::model::{
    build_freq_table_101, build_freq_table_103, freq_bracket, DeviceCalibration, ModelSpec,
};

#[test]
fn test_model_from_id() {
    let spec = ModelSpec::from_id(101).unwrap();
    assert_eq!(spec.name, "RPM-20GS");
    assert_eq!(spec.freq_count, 202);
    assert_eq!(spec.power_count, 21);
    assert!((spec.power_min as f32 - (-40.0)).abs() < 0.01);

    let spec107 = ModelSpec::from_id(107).unwrap();
    assert_eq!(spec107.name, "RPM-6GH");
    assert_eq!(spec107.freq_count, 69);
    assert_eq!(spec107.power_count, 41);
    assert!((spec107.power_min as f32 - (-80.0)).abs() < 0.01);

    assert!(ModelSpec::from_id(999).is_none());
}

#[test]
fn test_freq_table_101() {
    let spec = ModelSpec::from_id(101).unwrap();
    let freqs = spec.build_freq_table();
    assert_eq!(freqs.len(), 202);
    assert_eq!(freqs[0], 10_000_000);
    assert_eq!(freqs[1], 50_000_000);
    assert_eq!(freqs[2], 100_000_000);
    assert_eq!(freqs[3], 200_000_000);
    assert_eq!(freqs[201], 20_000_000_000);
}

#[test]
fn test_freq_table_102() {
    let spec = ModelSpec::from_id(102).unwrap();
    let freqs = spec.build_freq_table();
    assert_eq!(freqs.len(), 33);
    assert_eq!(freqs[0], 50);
    assert_eq!(freqs[1], 10_000_000);
    assert_eq!(freqs[2], 50_000_000);
    assert_eq!(freqs[3], 100_000_000);
}

#[test]
fn test_freq_table_104() {
    let spec = ModelSpec::from_id(104).unwrap();
    let freqs = spec.build_freq_table();
    assert_eq!(freqs.len(), 218);
    assert_eq!(freqs[0], 10_000_000);
    assert_eq!(freqs[1], 15_000_000);
    assert_eq!(freqs[17], 95_000_000);
    assert_eq!(freqs[18], 100_000_000);
}

#[test]
fn test_freq_table_105() {
    let spec = ModelSpec::from_id(105).unwrap();
    let freqs = spec.build_freq_table();
    assert_eq!(freqs.len(), 58);
    assert_eq!(freqs[0], 50); // 50 Hz
    assert_eq!(freqs[1], 100_000); // 100 kHz
    assert_eq!(freqs[9], 900_000); // 900 kHz
    assert_eq!(freqs[10], 1_000_000); // 1 MHz
    assert_eq!(freqs[18], 9_000_000); // 9 MHz
    assert_eq!(freqs[19], 10_000_000); // 10 MHz
    assert_eq!(freqs[27], 90_000_000); // 90 MHz
    assert_eq!(freqs[28], 100_000_000); // 100 MHz
    assert_eq!(freqs[57], 3_000_000_000); // 3000 MHz
}

#[test]
fn test_freq_table_106() {
    let spec = ModelSpec::from_id(106).unwrap();
    let freqs = spec.build_freq_table();
    assert_eq!(freqs.len(), 99);
    assert_eq!(freqs[0], 10_000_000);
    assert_eq!(freqs[8], 90_000_000);
    assert_eq!(freqs[9], 100_000_000);
}

#[test]
fn test_freq_table_107() {
    let spec = ModelSpec::from_id(107).unwrap();
    let freqs = spec.build_freq_table();
    assert_eq!(freqs.len(), 69);
    assert_eq!(freqs[0], 10_000_000);
    assert_eq!(freqs[8], 90_000_000);
    assert_eq!(freqs[9], 100_000_000);
    assert_eq!(freqs[68], 6_000_000_000);
}

#[test]
fn test_freq_table_108() {
    let spec = ModelSpec::from_id(108).unwrap();
    let freqs = spec.build_freq_table();
    assert_eq!(freqs.len(), 283);
    assert_eq!(freqs[0], 10_000_000);
    assert_eq!(freqs[17], 95_000_000);
    assert_eq!(freqs[18], 100_000_000);
    assert_eq!(freqs[282], 26_500_000_000);
}

/// Power levels come in tenths of a dBm.
fn dbm(tenths: i32) -> f32 {
    tenths as f32 / 10.0
}

#[test]
fn test_power_table() {
    let spec = ModelSpec::from_id(101).unwrap();
    let powers = spec.build_power_table();
    assert_eq!(powers.len(), 21);
    assert!((dbm(powers[0]) - (-40.0)).abs() < 0.01);
    assert!((dbm(powers[1]) - (-37.5)).abs() < 0.01);
    assert!((dbm(powers[20]) - 10.0).abs() < 0.01);
}

#[test]
fn test_power_table_107() {
    let spec = ModelSpec::from_id(107).unwrap();
    let powers = spec.build_power_table();
    assert_eq!(powers.len(), 41);
    assert!((dbm(powers[0]) - (-80.0)).abs() < 0.01);
    assert!((dbm(powers[40]) - 20.0).abs() < 0.01);
}

#[test]
fn test_device_calibration() {
    let cal = DeviceCalibration::new(101).unwrap();
    assert_eq!(cal.freq_table.len(), 202);
    assert_eq!(cal.power_table.len(), 21);
    assert_eq!(cal.voltage_table.len(), 202);
    assert_eq!(cal.voltage_table[0].len(), 21);
}

// ─── Further checks of the model tables ─────────────────────────────

#[test]
fn every_model_spans_its_documented_range() {
    // (id, name, sensor, lowest Hz, highest Hz, lowest dBm, highest dBm)
    let expected: [(u16, &str, &str, i64, i64, i32, i32); 8] = [
        (101, "RPM-20GS", "ARW28340", 10_000_000, 20_000_000_000, -40, 10),
        (102, "RPM-3GS", "AD8362", 50, 3_000_000_000, -50, 10),
        (103, "RPM-9G", "ARW22347", 10_000_000, 9_000_000_000, -40, 10),
        (104, "RPM-20GS v2", "ARW28340", 10_000_000, 20_000_000_000, -40, 10),
        (105, "RPM-3GS v2", "AD8362", 50, 3_000_000_000, -50, 10),
        (106, "RPM-9G v2", "ARW22347", 10_000_000, 9_000_000_000, -40, 10),
        (107, "RPM-6GH", "ARW22283", 10_000_000, 6_000_000_000, -80, 20),
        (108, "RPM-20GS OPT260", "ARW28340", 10_000_000, 26_500_000_000, -40, 10),
    ];
    for (id, name, sensor, lo, hi, pmin, pmax) in expected {
        let spec = ModelSpec::from_id(id).unwrap();
        assert_eq!(spec.id, id);
        assert_eq!(spec.name, name);
        assert_eq!(spec.sensor, sensor);
        assert_eq!((spec.power_min, spec.power_max), (pmin, pmax));
        let freqs = spec.build_freq_table();
        assert_eq!(freqs.len(), spec.freq_count);
        assert_eq!((freqs[0], *freqs.last().unwrap()), (lo, hi));
        assert!(freqs.windows(2).all(|w| w[0] < w[1]));
        let powers = spec.build_power_table();
        assert_eq!(powers.len(), spec.power_count);
        assert_eq!((powers[0], *powers.last().unwrap()), (pmin * 10, pmax * 10));
    }
    assert!(ModelSpec::from_id(100).is_none());
    assert!(ModelSpec::from_id(109).is_none());
}

#[test]
fn table_builders_agree_for_sibling_models() {
    assert_eq!(build_freq_table_101().len(), 202);
    assert_eq!(build_freq_table_101()[..92], build_freq_table_103()[..]);
}

#[test]
fn calibration_rows_are_stored_by_index() {
    assert!(DeviceCalibration::new(42).is_none());
    let mut cal = DeviceCalibration::new(102).unwrap();
    assert!(cal.voltage_table.iter().all(|row| row.iter().all(|&v| v == 0)));
    let row: Vec<u32> = (0..25).map(|i| (i as f32).to_bits()).collect();
    cal.set_calibration_row(3, row.clone());
    assert_eq!(cal.voltage_table[3], row);
    assert_eq!(cal.voltage_table[2], vec![0u32; 25]);
    // An index past the table is ignored.
    let before = cal.voltage_table.clone();
    cal.set_calibration_row(33, vec![1, 2, 3]);
    assert_eq!(cal.voltage_table, before);
}

#[test]
fn freq_bracket_finds_neighbouring_entries() {
    let table = [100_000_000i64, 200_000_000, 300_000_000];
    assert_eq!(freq_bracket(50_000_000, &table), None);
    assert_eq!(freq_bracket(300_000_001, &table), None);
    assert_eq!(freq_bracket(100_000_000, &table), Some((0, 1)));
    assert_eq!(freq_bracket(150_000_000, &table), Some((0, 1)));
    // A frequency on a table entry belongs to the first pair holding it.
    assert_eq!(freq_bracket(200_000_000, &table), Some((0, 1)));
    assert_eq!(freq_bracket(250_000_000, &table), Some((1, 2)));
    assert_eq!(freq_bracket(300_000_000, &table), Some((1, 2)));
    // A single-entry table only holds its own frequency, with no pair.
    assert_eq!(freq_bracket(7, &[7]), Some((0, 0)));
    assert_eq!(freq_bracket(8, &[7]), None);
}
