use rt_btwatch2_exporter::btwatch2::{
    parse_manufacturer_data, DecodeError, Measurement, COMPANY_ID, CURRENT_COUNTS_PER_AMPERE,
    PAYLOAD_LEN, POWER_COUNTS_PER_WATT, VOLTAGE_COUNTS_PER_VOLT,
};

fn sample_payload() -> Vec<u8> {
    vec![0x00, 0x64, 0x00, 0xE8, 0x03, 0x40, 0x1F, 0x00]
}

#[test]
fn decode_reads_sample() {
    let m = parse_manufacturer_data(&sample_payload()).unwrap();
    assert_eq!(m, Measurement { relay: 0, voltage: 100, current: 1000, power: 8000 });
}

#[test]
fn decode_scales_sample() {
    let m = parse_manufacturer_data(&sample_payload()).unwrap();
    assert_eq!(m.relay, 0);
    assert_eq!(m.voltage as f32 / VOLTAGE_COUNTS_PER_VOLT as f32, 10.0_f32);
    assert_eq!(m.current as f32 / CURRENT_COUNTS_PER_AMPERE as f32, 1.0_f32);
    assert_eq!(m.power as f32 / POWER_COUNTS_PER_WATT as f32, 8.0_f32);
}

#[test]
fn decode_constants() {
    assert_eq!(COMPANY_ID, 0x0B60);
    assert_eq!(PAYLOAD_LEN, 8);
    assert_eq!(VOLTAGE_COUNTS_PER_VOLT, 10);
    assert_eq!(CURRENT_COUNTS_PER_AMPERE, 1000);
    assert_eq!(POWER_COUNTS_PER_WATT, 1000);
}

#[test]
fn decode_is_little_endian() {
    let raw: Vec<u8> = vec![0x01, 0x02, 0x03, 0x04, 0x05, 0x06, 0x07, 0x08];
    let m = parse_manufacturer_data(&raw).unwrap();
    assert_eq!(m.relay, 0x01);
    assert_eq!(m.voltage, 0x0302);
    assert_eq!(m.current, 0x0504);
    assert_eq!(m.power, 0x0008_0706);
}

#[test]
fn decode_matches_from_le_bytes() {
    let raw: Vec<u8> = vec![0xA5, 0x34, 0x12, 0xCD, 0xAB, 0x56, 0x34, 0x12];
    let m = parse_manufacturer_data(&raw).unwrap();
    assert_eq!(m.relay, raw[0]);
    assert_eq!(m.voltage, u16::from_le_bytes([raw[1], raw[2]]));
    assert_eq!(m.current, u16::from_le_bytes([raw[3], raw[4]]));
    assert_eq!(m.power, u32::from_le_bytes([raw[5], raw[6], raw[7], 0]));
}

#[test]
fn decode_takes_extreme_values() {
    let m = parse_manufacturer_data(&vec![0xFF; 8]).unwrap();
    assert_eq!(m, Measurement { relay: 255, voltage: 65535, current: 65535, power: 0x00FF_FFFF });
    let z = parse_manufacturer_data(&vec![0x00; 8]).unwrap();
    assert_eq!(z, Measurement { relay: 0, voltage: 0, current: 0, power: 0 });
}

#[test]
fn decode_passes_relay_through() {
    let mut raw = sample_payload();
    raw[0] = 0x01;
    assert_eq!(parse_manufacturer_data(&raw).unwrap().relay, 1);
    raw[0] = 0x80;
    assert_eq!(parse_manufacturer_data(&raw).unwrap().relay, 128);
}

#[test]
fn decode_is_repeatable() {
    let raw = sample_payload();
    let first = parse_manufacturer_data(&raw);
    let between = parse_manufacturer_data(&vec![0xFF; 8]);
    let second = parse_manufacturer_data(&raw.clone());
    assert_eq!(first, second);
    assert_ne!(first, between);
}

#[test]
fn decode_ignores_trailing_bytes() {
    let expected = parse_manufacturer_data(&sample_payload());
    let mut longer = sample_payload();
    longer.push(0xFF);
    assert_eq!(parse_manufacturer_data(&longer), expected);
    longer.extend_from_slice(&[0x12, 0x34, 0x56, 0x78, 0x9A]);
    assert_eq!(parse_manufacturer_data(&longer), expected);
}

#[test]
fn decode_rejects_short_payload() {
    let full = sample_payload();
    for len in 0..8 {
        let raw: Vec<u8> = full[..len].to_vec();
        assert_eq!(parse_manufacturer_data(&raw), Err(DecodeError::TooShort { len }));
    }
}

#[test]
fn decode_rejects_empty_payload() {
    assert_eq!(parse_manufacturer_data(&Vec::new()), Err(DecodeError::TooShort { len: 0 }));
}

#[test]
fn decode_accepts_exactly_eight_bytes() {
    assert!(parse_manufacturer_data(&vec![0x00; 8]).is_ok());
    assert!(parse_manufacturer_data(&vec![0x00; 7]).is_err());
    assert!(parse_manufacturer_data(&vec![0x00; 9]).is_ok());
}
