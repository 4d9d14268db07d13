//! Tests for the unsigned-integer codec and the scaled-quantity layer.

use ornament_host::errors::AttrError;
use ornament_host::scaledqty;
use ornament_host::uintqty::{decode, encode, post, UIntQtyValue};

#[test]
fn decode_sentinel_is_unavailable() {
    let r = decode(&vec![0xff, 0xff, 0xff, 0xff], 4, None);
    assert!(matches!(r, Err(AttrError::Unavailable)));
}

#[test]
fn decode_one() {
    let r = decode(&vec![0x00, 0x00, 0x00, 0x01], 4, None).unwrap();
    assert_eq!(r.value, 1);
    assert!(r.unit.is_none());
}

#[test]
fn decode_accumulation_order_first_byte_most_significant() {
    let r = decode(&vec![0x12, 0x34], 2, None).unwrap();
    assert_eq!(r.value, 0x1234);
}

#[test]
fn decode_wrong_length_is_length_mismatch() {
    let r = decode(&vec![0x00, 0x01], 4, None);
    assert!(matches!(r, Err(AttrError::LengthMismatch)));
    let r = decode(&vec![0x00, 0x00, 0x00, 0x00, 0x01], 4, None);
    assert!(matches!(r, Err(AttrError::LengthMismatch)));
}

#[test]
fn decode_attaches_unit_unchanged() {
    let r = decode(&vec![0x27, 0x10], 2, Some(String::from("volts"))).unwrap();
    assert_eq!(r.value, 10000);
    assert_eq!(r.unit.as_deref(), Some("volts"));
}

#[test]
fn encode_emits_most_significant_byte_first() {
    let b = encode(0x0102, 2).unwrap();
    assert_eq!(b, vec![0x01, 0x02]);
    let b = encode(0x01, 4).unwrap();
    assert_eq!(b, vec![0x00, 0x00, 0x00, 0x01]);
}

#[test]
fn encode_too_large_iff_value_needs_more_bytes() {
    assert!(matches!(encode(0x100, 1), Err(AttrError::ValueTooLarge)));
    assert!(matches!(encode(0x10000, 2), Err(AttrError::ValueTooLarge)));
    assert!(encode(0xff, 2).is_ok());
    // The largest width admits every value of the carrying type.
    assert!(matches!(encode(u64::MAX, 8), Err(AttrError::InvalidValue)));
    assert!(encode(u64::MAX - 1, 8).is_ok());
}

#[test]
fn encode_sentinel_pattern_is_invalid() {
    assert!(matches!(encode(0xff, 1), Err(AttrError::InvalidValue)));
    assert!(matches!(encode(0xffff, 2), Err(AttrError::InvalidValue)));
    assert!(matches!(encode(0xffff_ffff, 4), Err(AttrError::InvalidValue)));
    // A value merely containing 0xFF bytes is fine.
    assert_eq!(encode(0xfffe, 2).unwrap(), vec![0xff, 0xfe]);
}

#[test]
fn round_trip_preserves_value_and_unit() {
    for width in 1usize..=8 {
        let max = if width == 8 { u64::MAX } else { (1u64 << (8 * width)) - 1 };
        for v in [0u64, 1, 0x7f, max - 1, max / 2] {
            let bytes = encode(v, width).unwrap();
            assert_eq!(bytes.len(), width);
            let q = decode(&bytes, width, Some(String::from("lux"))).unwrap();
            assert_eq!(q.value, v);
            assert_eq!(q.unit.as_deref(), Some("lux"));
        }
    }
}

#[test]
fn post_rejects_unit_mismatch() {
    let req = UIntQtyValue { value: 1, unit: Some(String::from("lux")) };
    let r = post(req, &Some(String::from("volts")), 4);
    assert!(matches!(r, Err(AttrError::UnitMismatch)));

    let req = UIntQtyValue { value: 1, unit: Some(String::from("lux")) };
    let r = post(req, &None, 4);
    assert!(matches!(r, Err(AttrError::UnitMismatch)));

    let req = UIntQtyValue { value: 1, unit: None };
    let r = post(req, &Some(String::from("lux")), 4);
    assert!(matches!(r, Err(AttrError::UnitMismatch)));
}

#[test]
fn post_with_matching_units_encodes() {
    let req = UIntQtyValue { value: 0x0203, unit: Some(String::from("g")) };
    let r = post(req, &Some(String::from("g")), 2).unwrap();
    assert_eq!(r, vec![0x02, 0x03]);

    let req = UIntQtyValue { value: 7, unit: None };
    let r = post(req, &None, 1).unwrap();
    assert_eq!(r, vec![0x07]);
}

#[test]
fn post_inherits_encode_failures() {
    let req = UIntQtyValue { value: 0x10000, unit: None };
    assert!(matches!(post(req, &None, 2), Err(AttrError::ValueTooLarge)));
    let req = UIntQtyValue { value: 0xffff, unit: None };
    assert!(matches!(post(req, &None, 2), Err(AttrError::InvalidValue)));
}

#[test]
fn scaled_decode_raw_matches_unsigned_decode() {
    assert_eq!(scaledqty::decode_raw(&vec![0x27, 0x10], 2).unwrap(), 10000);
    assert!(matches!(
        scaledqty::decode_raw(&vec![0xff, 0xff], 2),
        Err(AttrError::Unavailable)
    ));
    assert!(matches!(
        scaledqty::decode_raw(&vec![0x01], 2),
        Err(AttrError::LengthMismatch)
    ));
}

#[test]
fn battery_reading_scales_to_volts() {
    // A 2-byte battery characteristic with raw value 0x2710 (10000) under
    // scale 1.00709544518e-4 reads as about 1.00709544518 volts.
    let raw = scaledqty::decode_raw(&vec![0x27, 0x10], 2).unwrap();
    assert_eq!(raw, 10000);
    let scale = 1.00709544518e-4_f64;
    let value = raw as f64 * scale;
    assert!((value - 1.0070954451800001).abs() < 1e-12);
}

#[test]
fn threshold_write_then_read_round_trip() {
    // Writing {value: 12.3, unit: "lux"} with scale 1e-1 and width 4 puts
    // raw integer 123 on the wire; reading it back yields 12.3 again.
    let scale = 1e-1_f64;
    let requested = 12.3_f64;
    let raw = (requested / scale).round() as u64;
    assert_eq!(raw, 123);
    let bytes = scaledqty::post_raw(raw, String::from("lux"), &String::from("lux"), 4).unwrap();
    assert_eq!(bytes, vec![0x00, 0x00, 0x00, 123]);
    let read_back = scaledqty::decode_raw(&bytes, 4).unwrap();
    let value = read_back as f64 * scale;
    assert!((value - requested).abs() < 1e-9);
}

#[test]
fn scaled_round_trip_stays_within_one_scale_unit() {
    for (scale, requested) in [
        (1e-1_f64, 12.34_f64),
        (1e-3, 0.5115),
        (1e-3, 2.0004),
        (1e-1, 0.06),
    ] {
        let raw = (requested / scale).round() as u64;
        let bytes =
            scaledqty::post_raw(raw, String::from("g"), &String::from("g"), 4).unwrap();
        let read_back = scaledqty::decode_raw(&bytes, 4).unwrap();
        let value = read_back as f64 * scale;
        assert!((value - requested).abs() <= scale);
    }
}

#[test]
fn scaled_post_rejects_unit_mismatch_case_sensitively() {
    let r = scaledqty::post_raw(123, String::from("LUX"), &String::from("lux"), 4);
    assert!(matches!(r, Err(AttrError::UnitMismatch)));
}

#[test]
fn scaled_post_inherits_overflow_and_sentinel_checks() {
    let r = scaledqty::post_raw(0x1_0000_0000, String::from("lux"), &String::from("lux"), 4);
    assert!(matches!(r, Err(AttrError::ValueTooLarge)));
    let r = scaledqty::post_raw(0xffff_ffff, String::from("lux"), &String::from("lux"), 4);
    assert!(matches!(r, Err(AttrError::InvalidValue)));
}
