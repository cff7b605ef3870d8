use smc_telemetry::codec::{accept_keyinfo, decode_fan_read_response, decode_read_response};
use smc_telemetry::decode::DecodedValue;
use smc_telemetry::error::CodecError;
use smc_telemetry::key::parse_key;
use smc_telemetry::record::{keyinfo_request, read_request, KeyInfo, SmcRecord, RESULT_SUCCESS};

fn answered(info: KeyInfo, bytes: &[u8]) -> SmcRecord {
    let mut r = SmcRecord::zeroed();
    r.key_info = info;
    r.bytes[..bytes.len()].copy_from_slice(bytes);
    r
}

fn sp78_info() -> KeyInfo {
    KeyInfo { data_size: 2, data_type: [b'8', b'7', b'p', b's'], data_attributes: 0 }
}

#[test]
fn a_whole_read_of_a_temperature_register() {
    // Phase one: build the key-info request for "TC0P" and accept the
    // controller's answer.
    let key = parse_key("TC0P").unwrap();
    let req1 = keyinfo_request(&key);
    assert_eq!(req1.key, 0x5443_3050);
    let answer1 = answered(sp78_info(), &[]);
    let info = accept_keyinfo(RESULT_SUCCESS, &answer1).unwrap();
    assert_eq!(info.data_size, 2);

    // Phase two: the read request carries the key info verbatim; the
    // payload decodes under the discovered tag.
    let req2 = read_request(&key, &info);
    assert_eq!(req2.key_info.data_type, [b'8', b'7', b'p', b's']);
    let answer2 = answered(info, &[0x19, 0x40]);
    assert_eq!(
        decode_read_response(RESULT_SUCCESS, &info, &answer2),
        Ok(DecodedValue::Finite(3264))
    );
}

#[test]
fn a_rejected_key_info_transaction_carries_its_code() {
    let answer = answered(sp78_info(), &[]);
    assert_eq!(
        accept_keyinfo(-536870206, &answer),
        Err(CodecError::KeyInfoFailed(-536870206))
    );
}

#[test]
fn a_rejected_read_transaction_carries_its_code() {
    let info = sp78_info();
    let answer = answered(info, &[0x19, 0x40]);
    assert_eq!(
        decode_read_response(5, &info, &answer),
        Err(CodecError::ReadFailed(5))
    );
    assert_eq!(
        decode_fan_read_response(5, &info, &answer),
        Err(CodecError::ReadFailed(5))
    );
}

#[test]
fn a_fan_read_uses_the_fan_table() {
    // An unrecognized tag on a fan register decodes as fpe2.
    let info = KeyInfo { data_size: 2, data_type: [b'6', b'1', b'i', b'u'], data_attributes: 0 };
    let answer = answered(info, &[0x04, 0x68]);
    assert_eq!(
        decode_fan_read_response(RESULT_SUCCESS, &info, &answer),
        Ok(DecodedValue::Finite(36096))
    );
    // The same answer under the general table decodes as sp78.
    assert_eq!(
        decode_read_response(RESULT_SUCCESS, &info, &answer),
        Ok(DecodedValue::Finite(4 * 128 + 104))
    );
}
