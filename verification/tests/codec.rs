use smc_telemetry::decode::{
    decode_fan_payload, decode_flt_bytes, decode_payload, decode_sp78, extract_type_tag,
    DecodedValue,
};
use smc_telemetry::error::CodecError;
use smc_telemetry::key::{core_temp_key, cpu_temp_fallback_keys, fan_speed_key, parse_key};
use smc_telemetry::record::{keyinfo_request, read_request, KeyInfo, SmcRecord};

fn payload(bytes: &[u8]) -> [u8; 32] {
    let mut p = [0u8; 32];
    p[..bytes.len()].copy_from_slice(bytes);
    p
}

#[test]
fn parse_key_accepts_four_ascii_characters() {
    let k = parse_key("TC0P").unwrap();
    assert_eq!((k.b0, k.b1, k.b2, k.b3), (b'T', b'C', b'0', b'P'));
    assert_eq!(k.packed(), 0x5443_3050);
}

#[test]
fn parse_key_rejects_wrong_lengths() {
    assert_eq!(parse_key(""), Err(CodecError::InvalidKey));
    assert_eq!(parse_key("TC0"), Err(CodecError::InvalidKey));
    assert_eq!(parse_key("TC0PX"), Err(CodecError::InvalidKey));
    assert_eq!(parse_key("TC10C"), Err(CodecError::InvalidKey));
}

#[test]
fn parse_key_rejects_non_ascii() {
    assert_eq!(parse_key("T\u{e9}0P"), Err(CodecError::InvalidKey));
}

#[test]
fn key_builders_write_the_textual_keys() {
    let k = core_temp_key(3).unwrap();
    assert_eq!((k.b0, k.b1, k.b2, k.b3), (b'T', b'C', b'3', b'C'));
    assert_eq!(core_temp_key(10), Err(CodecError::InvalidKey));
    let f = fan_speed_key(1).unwrap();
    assert_eq!((f.b0, f.b1, f.b2, f.b3), (b'F', b'1', b'A', b'c'));
    assert_eq!(fan_speed_key(12), Err(CodecError::InvalidKey));
}

#[test]
fn fallback_keys_in_priority_order() {
    let keys = cpu_temp_fallback_keys();
    let texts: Vec<[u8; 4]> = keys.iter().map(|k| [k.b0, k.b1, k.b2, k.b3]).collect();
    assert_eq!(
        texts,
        vec![*b"TC0P", *b"TC0D", *b"TC0E", *b"TC0F", *b"TC0c"]
    );
}

#[test]
fn zeroed_record_is_all_zero() {
    let r = SmcRecord::zeroed();
    assert_eq!(r.key, 0);
    assert_eq!(r.vers, [0u8; 6]);
    assert_eq!(r.p_limit_data, [0u8; 16]);
    assert_eq!(r.key_info.data_size, 0);
    assert_eq!(r.key_info.data_type, [0u8; 4]);
    assert_eq!(r.key_info.data_attributes, 0);
    assert_eq!((r.result, r.status, r.data8, r.data32), (0, 0, 0, 0));
    assert_eq!(r.bytes, [0u8; 32]);
}

#[test]
fn keyinfo_request_sets_key_and_command() {
    let k = parse_key("F0Ac").unwrap();
    let r = keyinfo_request(&k);
    assert_eq!(r.key, 0x4630_4163);
    assert_eq!(r.data8, smc_telemetry::record::SMC_CMD_READ_KEYINFO);
    assert_eq!(r.key_info.data_size, 0);
    assert_eq!(r.bytes, [0u8; 32]);
}

#[test]
fn read_request_copies_key_info_verbatim() {
    let k = parse_key("TC0P").unwrap();
    let info = KeyInfo { data_size: 2, data_type: [b'8', b'7', b'p', b's'], data_attributes: 7 };
    let r = read_request(&k, &info);
    assert_eq!(r.key, 0x5443_3050);
    assert_eq!(r.data8, smc_telemetry::record::SMC_CMD_READ_BYTES);
    assert_eq!(r.key_info.data_size, 2);
    assert_eq!(r.key_info.data_type, [b'8', b'7', b'p', b's']);
    assert_eq!(r.key_info.data_attributes, 7);
}

#[test]
fn type_tag_reads_bytes_reversed() {
    assert_eq!(extract_type_tag(&[b'8', b'7', b'p', b's']), b"sp78".to_vec());
    assert_eq!(extract_type_tag(&[b'2', b'e', b'p', b'f']), b"fpe2".to_vec());
}

#[test]
fn type_tag_stops_at_zero_and_trims_blanks() {
    // Raw bytes of "flt " (reversed): the trailing blank is trimmed.
    assert_eq!(extract_type_tag(&[b' ', b't', b'l', b'f']), b"flt".to_vec());
    // A zero byte ends the tag.
    assert_eq!(extract_type_tag(&[0, b't', b'l', b'f']), b"flt".to_vec());
    assert_eq!(extract_type_tag(&[0, 0, 0, 0]), Vec::<u8>::new());
}

#[test]
fn type_tag_of_all_blanks_is_empty() {
    assert_eq!(extract_type_tag(&[b' ', b' ', b' ', b' ']), Vec::<u8>::new());
}

#[test]
fn fpe2_largest_raw_word() {
    // 0xFFFF quarters: 16383.75 units, exactly 0xFFFF * 32 q128 units.
    assert_eq!(
        decode_payload(&b"fpe2".to_vec(), &payload(&[0xFF, 0xFF])),
        DecodedValue::Finite(0xFFFF * 32)
    );
}

#[test]
fn sp78_decodes_exactly() {
    // 25 + 64/128 = 25.5 degrees, exactly 25.5 * 128 q128 units.
    assert_eq!(
        decode_payload(&b"sp78".to_vec(), &payload(&[0x19, 0x40])),
        DecodedValue::Finite(3264)
    );
}

#[test]
fn sp78_first_byte_is_signed() {
    // 0xF0 as a signed byte is -16; -16 * 128 + 32 = -2016.
    assert_eq!(decode_sp78(0xF0, 0x20), DecodedValue::Finite(-2016));
}

#[test]
fn fpe2_decodes_exactly() {
    // (4 * 256 + 104) / 4 = 282.0, exactly 282 * 128 q128 units.
    assert_eq!(
        decode_payload(&b"fpe2".to_vec(), &payload(&[0x04, 0x68])),
        DecodedValue::Finite(36096)
    );
}

#[test]
fn flt_decodes_ieee_single() {
    let b = 36.0f32.to_le_bytes();
    assert_eq!(
        decode_payload(&b"flt".to_vec(), &payload(&b)),
        DecodedValue::Finite(36 * 128)
    );
    let b = 0.5f32.to_le_bytes();
    assert_eq!(decode_flt_bytes(b[0], b[1], b[2], b[3]), DecodedValue::Finite(64));
    let b = (-1.0f32).to_le_bytes();
    assert_eq!(decode_flt_bytes(b[0], b[1], b[2], b[3]), DecodedValue::Finite(-128));
}

#[test]
fn flt_truncates_toward_zero() {
    // 0.004 is below one q128 unit.
    let b = 0.004f32.to_le_bytes();
    assert_eq!(decode_flt_bytes(b[0], b[1], b[2], b[3]), DecodedValue::Finite(0));
    let b = (-0.004f32).to_le_bytes();
    assert_eq!(decode_flt_bytes(b[0], b[1], b[2], b[3]), DecodedValue::Finite(0));
    // 1200.7 RPM in q128 units is 153689.6, truncated to 153689.
    let b = 1200.7f32.to_le_bytes();
    assert_eq!(decode_flt_bytes(b[0], b[1], b[2], b[3]), DecodedValue::Finite(153689));
}

#[test]
fn flt_non_finite_payloads() {
    let b = f32::NAN.to_le_bytes();
    assert_eq!(decode_flt_bytes(b[0], b[1], b[2], b[3]), DecodedValue::NonFinite);
    let b = f32::INFINITY.to_le_bytes();
    assert_eq!(decode_flt_bytes(b[0], b[1], b[2], b[3]), DecodedValue::NonFinite);
    let b = f32::NEG_INFINITY.to_le_bytes();
    assert_eq!(decode_flt_bytes(b[0], b[1], b[2], b[3]), DecodedValue::NonFinite);
}

#[test]
fn flt_saturates_at_the_i64_bounds() {
    let b = 1.0e20f32.to_le_bytes();
    assert_eq!(decode_flt_bytes(b[0], b[1], b[2], b[3]), DecodedValue::Finite(i64::MAX));
    let b = (-1.0e20f32).to_le_bytes();
    assert_eq!(decode_flt_bytes(b[0], b[1], b[2], b[3]), DecodedValue::Finite(i64::MIN));
}

#[test]
fn unknown_tag_falls_back_to_sp78() {
    assert_eq!(
        decode_payload(&b"ui16".to_vec(), &payload(&[0x19, 0x40])),
        DecodedValue::Finite(3264)
    );
    assert_eq!(
        decode_payload(&Vec::new(), &payload(&[0x19, 0x40])),
        DecodedValue::Finite(3264)
    );
}

#[test]
fn fan_decoding_falls_back_to_fpe2() {
    // A fan register with an unrecognized tag uses the divide-by-four
    // interpretation.
    assert_eq!(
        decode_fan_payload(&b"ui16".to_vec(), &payload(&[0x04, 0x68])),
        DecodedValue::Finite(36096)
    );
    assert_eq!(
        decode_fan_payload(&b"fpe2".to_vec(), &payload(&[0x04, 0x68])),
        DecodedValue::Finite(36096)
    );
    let b = 1200.0f32.to_le_bytes();
    assert_eq!(
        decode_fan_payload(&b"flt".to_vec(), &payload(&b)),
        DecodedValue::Finite(1200 * 128)
    );
}

#[test]
fn decoding_is_deterministic() {
    let tag = b"sp78".to_vec();
    let p = payload(&[0x19, 0x40]);
    assert_eq!(decode_payload(&tag, &p), decode_payload(&tag, &p));
    let tag = b"flt".to_vec();
    let b = 36.0f32.to_le_bytes();
    let p = payload(&b);
    assert_eq!(decode_payload(&tag, &p), decode_payload(&tag, &p));
}
