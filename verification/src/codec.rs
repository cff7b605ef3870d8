//! The read transaction: exactly two round-trips per read, both
//! required.
//!
//! Phase one submits a key-info request and yields the register's
//! `KeyInfo`; phase two submits a read request carrying that key info
//! verbatim and yields the raw payload, decoded under the type tag.
//! The application performs the two platform calls and hands each
//! outcome (the platform's result code and the answered record) back
//! to the functions here, which decide everything else. A malformed
//! key never reaches phase one: `parse_key` rejects it first.

use vstd::prelude::*;

use crate::decode::spec_decode;
use crate::decode::spec_decode_fan;
use crate::decode::spec_type_tag;
use crate::decode::decode_fan_payload;
use crate::decode::decode_payload;
use crate::decode::extract_type_tag;
use crate::decode::DecodedValue;
use crate::error::CodecError;
use crate::key::valid_key_chars;
use crate::record::KeyInfo;
use crate::record::SmcRecord;
use crate::record::RESULT_SUCCESS;

verus! {

/// Accepts phase one's outcome: on a success code, the key info the
/// controller returned, which the phase-two request must carry
/// unmodified; on any other code, `KeyInfoFailed` with that code.
pub fn accept_keyinfo(result_code: i32, response: &SmcRecord) -> (r: Result<KeyInfo, CodecError>)
    ensures
        result_code == RESULT_SUCCESS ==> r == Ok::<KeyInfo, CodecError>(response.key_info),
        result_code != RESULT_SUCCESS ==> r == Err::<KeyInfo, CodecError>(
            CodecError::KeyInfoFailed(result_code),
        ),
{
    if result_code == RESULT_SUCCESS {
        Ok(response.key_info)
    } else {
        Err(CodecError::KeyInfoFailed(result_code))
    }
}

/// Accepts phase two's outcome under the general encoding table: on a
/// success code, the payload decoded under the type tag of phase one's
/// key info; on any other code, `ReadFailed` with that code.
pub fn decode_read_response(result_code: i32, info: &KeyInfo, response: &SmcRecord) -> (r: Result<
    DecodedValue,
    CodecError,
>)
    ensures
        result_code == RESULT_SUCCESS ==> r == Ok::<DecodedValue, CodecError>(
            spec_decode(spec_type_tag(info.data_type@), response.bytes@),
        ),
        result_code != RESULT_SUCCESS ==> r == Err::<DecodedValue, CodecError>(
            CodecError::ReadFailed(result_code),
        ),
{
    if result_code != RESULT_SUCCESS {
        return Err(CodecError::ReadFailed(result_code));
    }
    let tag = extract_type_tag(&info.data_type);
    Ok(decode_payload(&tag, &response.bytes))
}

/// Accepts phase two's outcome for a fan-speed register, whose
/// unrecognized tags fall back to the `fpe2` interpretation.
pub fn decode_fan_read_response(result_code: i32, info: &KeyInfo, response: &SmcRecord) -> (r:
    Result<DecodedValue, CodecError>)
    ensures
        result_code == RESULT_SUCCESS ==> r == Ok::<DecodedValue, CodecError>(
            spec_decode_fan(spec_type_tag(info.data_type@), response.bytes@),
        ),
        result_code != RESULT_SUCCESS ==> r == Err::<DecodedValue, CodecError>(
            CodecError::ReadFailed(result_code),
        ),
{
    if result_code != RESULT_SUCCESS {
        return Err(CodecError::ReadFailed(result_code));
    }
    let tag = extract_type_tag(&info.data_type);
    Ok(decode_fan_payload(&tag, &response.bytes))
}

/// What a whole read yields, as a function of the key text and the
/// controller's two answers: reject a malformed key before any
/// transaction, fail with the phase's error and code on a rejected
/// transaction, else decode phase two's payload under phase one's tag.
pub open spec fn spec_read_outcome(
    key: Seq<char>,
    code1: i32,
    info: KeyInfo,
    code2: i32,
    payload: Seq<u8>,
) -> Result<DecodedValue, CodecError> {
    if !valid_key_chars(key) {
        Err(CodecError::InvalidKey)
    } else if code1 != RESULT_SUCCESS {
        Err(CodecError::KeyInfoFailed(code1))
    } else if code2 != RESULT_SUCCESS {
        Err(CodecError::ReadFailed(code2))
    } else {
        Ok(spec_decode(spec_type_tag(info.data_type@), payload))
    }
}

/// A read of a well-formed four-character key yields a decoded value
/// or the failed phase's error, never `InvalidKey`; a read of any
/// other key yields `InvalidKey` before either transaction; and it
/// yields a value exactly when both transactions report success.
pub proof fn lemma_read_outcome_cases(
    key: Seq<char>,
    code1: i32,
    info: KeyInfo,
    code2: i32,
    payload: Seq<u8>,
)
    ensures
        valid_key_chars(key) ==> spec_read_outcome(key, code1, info, code2, payload) != Err::<
            DecodedValue,
            CodecError,
        >(CodecError::InvalidKey),
        !valid_key_chars(key) ==> spec_read_outcome(key, code1, info, code2, payload) == Err::<
            DecodedValue,
            CodecError,
        >(CodecError::InvalidKey),
        spec_read_outcome(key, code1, info, code2, payload) is Ok <==> valid_key_chars(key)
            && code1 == RESULT_SUCCESS && code2 == RESULT_SUCCESS,
        valid_key_chars(key) && code1 != RESULT_SUCCESS ==> spec_read_outcome(
            key,
            code1,
            info,
            code2,
            payload,
        ) == Err::<DecodedValue, CodecError>(CodecError::KeyInfoFailed(code1)),
        valid_key_chars(key) && code1 == RESULT_SUCCESS && code2 != RESULT_SUCCESS
            ==> spec_read_outcome(key, code1, info, code2, payload) == Err::<
            DecodedValue,
            CodecError,
        >(CodecError::ReadFailed(code2)),
{
}

} // verus!
