//! Typed decoding of a register's raw bytes.
//!
//! The controller reports each register's numeric encoding through the
//! 4-byte type tag of its key info. The tag string is derived by
//! reading the raw tag bytes in reverse order, stopping at the first
//! zero byte and trimming blank padding. The payload bytes are then
//! interpreted according to the encoding table:
//!
//! * `sp78` — signed fixed point: signed byte plus a fraction in
//!   128ths; `fpe2` — an unsigned 14.2 fixed point: a 16-bit
//!   big-endian word in quarters; `flt` — four bytes holding an IEEE
//!   754 single-precision value, least significant byte first.
//! * An unrecognized tag falls back to the `sp78` interpretation
//!   (temperature-class keys are encoded that way even when their tag
//!   is not recognized). For fan-speed registers the fallback is the
//!   `fpe2` interpretation instead, with its divide-by-four divisor —
//!   the one canonical fallback divisor of this design.
//!
//! Every decoded value is an exact fixed-point number counted in
//! 1/128ths of a unit ("q128"): `sp78` and `fpe2` convert exactly, and
//! an IEEE value is truncated toward zero to whole 1/128ths, saturating
//! at the `i64` bounds. Infinities and not-a-number decode to
//! `NonFinite`, which every plausibility filter downstream rejects.

use vstd::arithmetic::div_mod::lemma_basic_div;
use vstd::arithmetic::mul::lemma_mul_upper_bound;
use vstd::arithmetic::power2::lemma2_to64;
use vstd::arithmetic::power2::lemma2_to64_rest;
use vstd::arithmetic::power2::lemma_pow2_adds;
use vstd::arithmetic::power2::lemma_pow2_strictly_increases;
use vstd::arithmetic::power2::pow2;
use vstd::prelude::*;

verus! {

/// A decoded register value in 1/128ths of a unit, or the decoding of
/// an IEEE payload that holds an infinity or a not-a-number.
#[derive(Clone, Copy, Debug, PartialEq, Eq, Structural)]
pub enum DecodedValue {
    Finite(i64),
    NonFinite,
}

// ---------------------------------------------------------------------
// Type tag derivation
// ---------------------------------------------------------------------

/// The raw tag bytes read in reverse order, up to the first zero byte.
pub open spec fn until_zero(s: Seq<u8>) -> Seq<u8>
    decreases s.len(),
{
    if s.len() == 0 {
        s
    } else if s[0] == 0 {
        Seq::<u8>::empty()
    } else {
        seq![s[0]] + until_zero(s.skip(1))
    }
}

/// A byte whose character is blank padding: the whitespace characters
/// of the 8-bit character range.
pub open spec fn is_blank(b: u8) -> bool {
    b == 0x09 || b == 0x0a || b == 0x0b || b == 0x0c || b == 0x0d || b == 0x20 || b == 0x85
        || b == 0xa0
}

pub open spec fn trim_front(s: Seq<u8>) -> Seq<u8>
    decreases s.len(),
{
    if s.len() > 0 && is_blank(s[0]) {
        trim_front(s.skip(1))
    } else {
        s
    }
}

pub open spec fn trim_back(s: Seq<u8>) -> Seq<u8>
    decreases s.len(),
{
    if s.len() > 0 && is_blank(s.last()) {
        trim_back(s.drop_last())
    } else {
        s
    }
}

/// The tag string of a key info's 4 raw tag bytes: the bytes in
/// reverse order, cut at the first zero and trimmed of blank padding.
pub open spec fn spec_type_tag(d: Seq<u8>) -> Seq<u8> {
    trim_back(trim_front(until_zero(seq![d[3], d[2], d[1], d[0]])))
}

fn blank_byte(b: u8) -> (r: bool)
    ensures
        r == is_blank(b),
{
    b == 0x09 || b == 0x0a || b == 0x0b || b == 0x0c || b == 0x0d || b == 0x20 || b == 0x85
        || b == 0xa0
}

/// Derives the tag string from the raw tag bytes of a key info.
pub fn extract_type_tag(data_type: &[u8; 4]) -> (tag: Vec<u8>)
    ensures
        tag@ == spec_type_tag(data_type@),
{
    let ghost rev: Seq<u8> = seq![data_type@[3], data_type@[2], data_type@[1], data_type@[0]];
    let mut v: Vec<u8> = Vec::new();
    let r0 = data_type[3];
    if r0 != 0 {
        v.push(r0);
        let r1 = data_type[2];
        if r1 != 0 {
            v.push(r1);
            let r2 = data_type[1];
            if r2 != 0 {
                v.push(r2);
                let r3 = data_type[0];
                if r3 != 0 {
                    v.push(r3);
                }
            }
        }
    }
    proof {
        reveal_with_fuel(until_zero, 6);
        assert(rev.skip(1) =~= seq![data_type@[2], data_type@[1], data_type@[0]]);
        assert(rev.skip(1).skip(1) =~= seq![data_type@[1], data_type@[0]]);
        assert(rev.skip(1).skip(1).skip(1) =~= seq![data_type@[0]]);
        assert(rev.skip(1).skip(1).skip(1).skip(1) =~= Seq::<u8>::empty());
        assert(v@ =~= until_zero(rev));
    }
    while v.len() > 0 && blank_byte(v[0])
        invariant
            trim_front(v@) == trim_front(until_zero(rev)),
        decreases v.len(),
    {
        let ghost before: Seq<u8> = v@;
        v.remove(0);
        proof {
            assert(v@ =~= before.skip(1));
        }
    }
    assert(v@ == trim_front(until_zero(rev)));
    while v.len() > 0 && blank_byte(v[v.len() - 1])
        invariant
            trim_back(v@) == trim_back(trim_front(until_zero(rev))),
        decreases v.len(),
    {
        let ghost before: Seq<u8> = v@;
        v.pop();
        proof {
            assert(v@ =~= before.drop_last());
        }
    }
    proof {
        assert(v@ == trim_back(trim_front(until_zero(rev))));
    }
    v
}

// ---------------------------------------------------------------------
// The numeric encodings
// ---------------------------------------------------------------------

/// `sp78`: the first byte as a signed integer part, the second as a
/// fraction in 128ths. In q128 units the value is exact.
pub open spec fn spec_sp78_q128(b0: u8, b1: u8) -> int {
    (if b0 < 128 {
        b0 as int
    } else {
        b0 as int - 256
    }) * 128 + b1 as int
}

/// `fpe2`: a 16-bit big-endian word in quarters of a unit. In q128
/// units the value is exact: 32 per raw count.
pub open spec fn spec_fpe2_q128(b0: u8, b1: u8) -> int {
    ((b0 as int) * 256 + b1 as int) * 32
}

/// Decodes an `sp78` payload.
pub fn decode_sp78(b0: u8, b1: u8) -> (r: DecodedValue)
    ensures
        r == DecodedValue::Finite(spec_sp78_q128(b0, b1) as i64),
{
    let int_part: i64 = if b0 >= 128 {
        (b0 as i64) - 256
    } else {
        b0 as i64
    };
    DecodedValue::Finite(int_part * 128 + (b1 as i64))
}

/// Decodes an `fpe2` payload.
pub fn decode_fpe2(b0: u8, b1: u8) -> (r: DecodedValue)
    ensures
        r == DecodedValue::Finite(spec_fpe2_q128(b0, b1) as i64),
{
    DecodedValue::Finite(((b0 as i64) * 256 + (b1 as i64)) * 32)
}

// ---------------------------------------------------------------------
// IEEE 754 single precision, in integer arithmetic
// ---------------------------------------------------------------------

/// The four payload bytes as the value's bit pattern, least
/// significant byte first.
pub open spec fn le_bits(b0: u8, b1: u8, b2: u8, b3: u8) -> u32 {
    ((b0 as int) + (b1 as int) * 0x100 + (b2 as int) * 0x10000 + (b3 as int) * 0x1000000) as u32
}

/// The biased 8-bit exponent field.
pub open spec fn flt_exp(bits: u32) -> int {
    ((bits as int) / 0x800000) % 0x100
}

/// The 23-bit mantissa field.
pub open spec fn flt_mantissa(bits: u32) -> int {
    (bits as int) % 0x800000
}

/// The sign bit.
pub open spec fn flt_negative(bits: u32) -> bool {
    bits >= 0x80000000
}

/// An all-ones exponent encodes an infinity or a not-a-number.
pub open spec fn flt_finite(bits: u32) -> bool {
    flt_exp(bits) != 255
}

/// The encoded magnitude in q128 units, truncated toward zero: with
/// biased exponent `e` and mantissa `m`, a normal value is
/// `(2^23 + m) * 2^(e - 127 - 23)` units, scaled by 2^7; a subnormal
/// value is below one q128 unit.
pub open spec fn flt_mag_q128(bits: u32) -> int {
    let e = flt_exp(bits);
    let m = flt_mantissa(bits);
    if e == 0 {
        m / (pow2(142) as int)
    } else if e >= 143 {
        (pow2(23) as int + m) * (pow2((e - 143) as nat) as int)
    } else {
        (pow2(23) as int + m) / (pow2((143 - e) as nat) as int)
    }
}

/// The encoded value in q128 units, truncated toward zero.
pub open spec fn flt_value_q128(bits: u32) -> int {
    if flt_negative(bits) {
        -flt_mag_q128(bits)
    } else {
        flt_mag_q128(bits)
    }
}

/// Saturation to the `i64` range.
pub open spec fn clamp_to_i64(v: int) -> int {
    if v > i64::MAX {
        i64::MAX as int
    } else if v < i64::MIN {
        i64::MIN as int
    } else {
        v
    }
}

/// What decoding a 4-byte `flt` payload yields.
pub open spec fn spec_flt_decoded(b0: u8, b1: u8, b2: u8, b3: u8) -> DecodedValue {
    let bits = le_bits(b0, b1, b2, b3);
    if flt_finite(bits) {
        DecodedValue::Finite(clamp_to_i64(flt_value_q128(bits)) as i64)
    } else {
        DecodedValue::NonFinite
    }
}

/// 2^e for exponents up to 63.
fn pow2_u64(e: u64) -> (r: u64)
    requires
        e <= 63,
    ensures
        r as nat == pow2(e as nat),
{
    proof {
        lemma2_to64();
    }
    let mut i: u64 = 0;
    let mut r: u64 = 1;
    while i < e
        invariant
            i <= e <= 63,
            r as nat == pow2(i as nat),
        decreases e - i,
    {
        proof {
            lemma_pow2_strictly_increases(i as nat, 63nat);
            lemma2_to64();
            lemma2_to64_rest();
            lemma_pow2_adds(i as nat, 1nat);
        }
        r = r * 2;
        i = i + 1;
    }
    r
}

/// Decodes a `flt` payload: the bit pattern's value truncated toward
/// zero to whole q128 units, saturated at the `i64` bounds; an
/// infinity or not-a-number pattern decodes to `NonFinite`.
pub fn decode_flt_bytes(b0: u8, b1: u8, b2: u8, b3: u8) -> (r: DecodedValue)
    ensures
        r == spec_flt_decoded(b0, b1, b2, b3),
{
    let bits: u32 = (b0 as u32) + (b1 as u32) * 0x100 + (b2 as u32) * 0x10000 + (b3 as u32)
        * 0x1000000;
    let e: u32 = (bits / 0x800000) % 0x100;
    let m: u32 = bits % 0x800000;
    let neg: bool = bits >= 0x80000000;
    if e == 255 {
        return DecodedValue::NonFinite;
    }
    proof {
        lemma2_to64();
    }
    let mag: u64;
    if e == 0 {
        proof {
            lemma_pow2_strictly_increases(23nat, 142nat);
            lemma_basic_div(m as int, pow2(142) as int);
        }
        mag = 0;
    } else if e >= 143 {
        let shift: u32 = e - 143;
        if shift >= 40 {
            proof {
                if shift > 40 {
                    lemma_pow2_strictly_increases(40nat, shift as nat);
                }
                lemma_pow2_adds(23nat, 40nat);
                lemma2_to64_rest();
                assert((pow2(23) as int + flt_mantissa(bits)) * (pow2(shift as nat) as int) >= pow2(
                    63,
                ) as int) by (nonlinear_arith)
                    requires
                        flt_mantissa(bits) >= 0,
                        pow2(shift as nat) >= pow2(40),
                        pow2(23) * pow2(40) == pow2(63),
                ;
            }
            if neg {
                return DecodedValue::Finite(i64::MIN);
            } else {
                return DecodedValue::Finite(i64::MAX);
            }
        }
        let base: u64 = 0x800000u64 + (m as u64);
        let p: u64 = pow2_u64(shift as u64);
        proof {
            if (shift as nat) < 39 {
                lemma_pow2_strictly_increases(shift as nat, 39nat);
            }
            lemma2_to64_rest();
            lemma_mul_upper_bound(base as int, 0xffffff, p as int, pow2(39) as int);
            lemma_pow2_adds(24nat, 39nat);
            assert(0xffffff * (pow2(39) as int) < pow2(63) as int) by (nonlinear_arith)
                requires
                    pow2(24) * pow2(39) == pow2(63),
                    pow2(24) == 0x1000000,
                    pow2(39) > 0,
            ;
        }
        mag = base * p;
    } else {
        let shift: u32 = 143 - e;
        let base: u64 = 0x800000u64 + (m as u64);
        if shift >= 24 {
            proof {
                lemma_pow2_strictly_increases(23nat, shift as nat);
                if (shift as nat) > 24 {
                    lemma_pow2_strictly_increases(24nat, shift as nat);
                }
                lemma_basic_div(base as int, pow2(shift as nat) as int);
            }
            mag = 0;
        } else {
            let p: u64 = pow2_u64(shift as u64);
            proof {
                lemma_pow2_strictly_increases(shift as nat, 24nat);
            }
            mag = base / p;
        }
    }
    proof {
        lemma2_to64_rest();
    }
    if neg {
        DecodedValue::Finite(-(mag as i64))
    } else {
        DecodedValue::Finite(mag as i64)
    }
}

// ---------------------------------------------------------------------
// The encoding table
// ---------------------------------------------------------------------

/// The tag string "sp78".
pub open spec fn tag_sp78() -> Seq<u8> {
    seq![0x73u8, 0x70u8, 0x37u8, 0x38u8]
}

/// The tag string "fpe2".
pub open spec fn tag_fpe2() -> Seq<u8> {
    seq![0x66u8, 0x70u8, 0x65u8, 0x32u8]
}

/// The tag string "flt" (the raw bytes carry a trailing blank, which
/// tag derivation trims).
pub open spec fn tag_flt() -> Seq<u8> {
    seq![0x66u8, 0x6cu8, 0x74u8]
}

/// The general encoding table: first matching tag wins, and an
/// unrecognized tag deliberately falls back to the `sp78`
/// interpretation.
pub open spec fn spec_decode(tag: Seq<u8>, p: Seq<u8>) -> DecodedValue {
    if tag == tag_sp78() {
        DecodedValue::Finite(spec_sp78_q128(p[0], p[1]) as i64)
    } else if tag == tag_fpe2() {
        DecodedValue::Finite(spec_fpe2_q128(p[0], p[1]) as i64)
    } else if tag == tag_flt() {
        spec_flt_decoded(p[0], p[1], p[2], p[3])
    } else {
        DecodedValue::Finite(spec_sp78_q128(p[0], p[1]) as i64)
    }
}

/// The fan-speed encoding table: as the general one, but an
/// unrecognized tag falls back to the `fpe2` interpretation with its
/// divide-by-four divisor.
pub open spec fn spec_decode_fan(tag: Seq<u8>, p: Seq<u8>) -> DecodedValue {
    if tag == tag_flt() {
        spec_flt_decoded(p[0], p[1], p[2], p[3])
    } else {
        DecodedValue::Finite(spec_fpe2_q128(p[0], p[1]) as i64)
    }
}

fn tag_is4(tag: &Vec<u8>, a: u8, b: u8, c: u8, d: u8) -> (r: bool)
    ensures
        r == (tag@ == seq![a, b, c, d]),
{
    let r = tag.len() == 4 && tag[0] == a && tag[1] == b && tag[2] == c && tag[3] == d;
    proof {
        if r {
            assert(tag@ =~= seq![a, b, c, d]);
        }
    }
    r
}

fn tag_is3(tag: &Vec<u8>, a: u8, b: u8, c: u8) -> (r: bool)
    ensures
        r == (tag@ == seq![a, b, c]),
{
    let r = tag.len() == 3 && tag[0] == a && tag[1] == b && tag[2] == c;
    proof {
        if r {
            assert(tag@ =~= seq![a, b, c]);
        }
    }
    r
}

/// Decodes a payload under the general encoding table.
pub fn decode_payload(tag: &Vec<u8>, payload: &[u8; 32]) -> (r: DecodedValue)
    ensures
        r == spec_decode(tag@, payload@),
{
    if tag_is4(tag, 0x73, 0x70, 0x37, 0x38) {
        decode_sp78(payload[0], payload[1])
    } else if tag_is4(tag, 0x66, 0x70, 0x65, 0x32) {
        decode_fpe2(payload[0], payload[1])
    } else if tag_is3(tag, 0x66, 0x6c, 0x74) {
        decode_flt_bytes(payload[0], payload[1], payload[2], payload[3])
    } else {
        decode_sp78(payload[0], payload[1])
    }
}

/// Decodes a payload under the fan-speed encoding table.
pub fn decode_fan_payload(tag: &Vec<u8>, payload: &[u8; 32]) -> (r: DecodedValue)
    ensures
        r == spec_decode_fan(tag@, payload@),
{
    if tag_is3(tag, 0x66, 0x6c, 0x74) {
        decode_flt_bytes(payload[0], payload[1], payload[2], payload[3])
    } else {
        decode_fpe2(payload[0], payload[1])
    }
}

/// Decoding is deterministic: the decoded value is a function of the
/// type tag and the payload bytes alone, so the same pair always
/// decodes to the same value, under either encoding table.
pub proof fn lemma_decode_deterministic(t1: Seq<u8>, p1: Seq<u8>, t2: Seq<u8>, p2: Seq<u8>)
    requires
        t1 == t2,
        p1 == p2,
    ensures
        spec_decode(t1, p1) == spec_decode(t2, p2),
        spec_decode_fan(t1, p1) == spec_decode_fan(t2, p2),
{
}

} // verus!
