//! Register keys: the only addressing scheme into the controller's
//! register space. A key is exactly four ASCII characters; in a request
//! record it travels packed big-endian into one 32-bit word.

use vstd::prelude::*;

use crate::error::CodecError;

verus! {

/// A validated register key: four ASCII bytes.
#[derive(Clone, Copy, Debug, PartialEq, Eq, Structural)]
pub struct RegisterKey {
    pub b0: u8,
    pub b1: u8,
    pub b2: u8,
    pub b3: u8,
}

/// A sequence of characters names a valid key when it has exactly four
/// characters, all ASCII.
/// The character is plain ASCII.
pub open spec fn ascii_char(c: char) -> bool {
    (c as u32) < 128
}

pub open spec fn valid_key_chars(s: Seq<char>) -> bool {
    s.len() == 4 && forall|i: int| 0 <= i < 4 ==> ascii_char(#[trigger] s[i])
}

impl RegisterKey {
    /// Every byte is ASCII.
    pub open spec fn wf(self) -> bool {
        self.b0 < 128 && self.b1 < 128 && self.b2 < 128 && self.b3 < 128
    }

    /// The key's characters, in order.
    pub open spec fn chars(self) -> Seq<char> {
        seq![self.b0 as char, self.b1 as char, self.b2 as char, self.b3 as char]
    }

    /// The four key bytes packed big-endian into one 32-bit word, the
    /// form the controller's request record carries.
    pub open spec fn spec_packed(self) -> u32 {
        ((self.b0 as u32) * 0x1000000 + (self.b1 as u32) * 0x10000 + (self.b2 as u32) * 0x100
            + (self.b3 as u32)) as u32
    }

    /// Packs the key big-endian, most significant byte first.
    pub fn packed(&self) -> (r: u32)
        ensures
            r == self.spec_packed(),
    {
        (self.b0 as u32) * 0x1000000 + (self.b1 as u32) * 0x10000 + (self.b2 as u32) * 0x100
            + (self.b3 as u32)
    }
}

/// Validates a textual key. Exactly four characters, all ASCII, are
/// accepted; anything else fails fast with `InvalidKey`, before any
/// controller transaction is built.
pub fn parse_key(s: &str) -> (r: Result<RegisterKey, CodecError>)
    ensures
        r is Ok <==> valid_key_chars(s@),
        r matches Ok(k) ==> k.wf() && k.chars() == s@,
        r is Err ==> r == Err::<RegisterKey, CodecError>(CodecError::InvalidKey),
{
    if s.unicode_len() != 4 {
        return Err(CodecError::InvalidKey);
    }
    let c0 = s.get_char(0) as u32;
    let c1 = s.get_char(1) as u32;
    let c2 = s.get_char(2) as u32;
    let c3 = s.get_char(3) as u32;
    if c0 >= 128 || c1 >= 128 || c2 >= 128 || c3 >= 128 {
        return Err(CodecError::InvalidKey);
    }
    let k = RegisterKey { b0: c0 as u8, b1: c1 as u8, b2: c2 as u8, b3: c3 as u8 };
    proof {
        assert(k.chars() =~= s@);
    }
    Ok(k)
}

/// The per-core temperature key "TC<n>C". Core numbers above nine would
/// need a fifth character, so they cannot name a key and fail with
/// `InvalidKey`, exactly as their textual form would.
pub fn core_temp_key(core: usize) -> (r: Result<RegisterKey, CodecError>)
    ensures
        core <= 9 ==> (r matches Ok(k) && k == (RegisterKey {
            b0: 0x54,  // 'T'
            b1: 0x43,  // 'C'
            b2: (0x30 + core) as u8,
            b3: 0x43,  // 'C'
        })),
        core > 9 ==> r == Err::<RegisterKey, CodecError>(CodecError::InvalidKey),
{
    if core > 9 {
        return Err(CodecError::InvalidKey);
    }
    Ok(RegisterKey { b0: 0x54, b1: 0x43, b2: 0x30 + core as u8, b3: 0x43 })
}

/// The actual-speed key "F<n>Ac" of fan number `n`. Fan numbers above
/// nine cannot name a key and fail with `InvalidKey`.
pub fn fan_speed_key(fan: usize) -> (r: Result<RegisterKey, CodecError>)
    ensures
        fan <= 9 ==> (r matches Ok(k) && k == (RegisterKey {
            b0: 0x46,  // 'F'
            b1: (0x30 + fan) as u8,
            b2: 0x41,  // 'A'
            b3: 0x63,  // 'c'
        })),
        fan > 9 ==> r == Err::<RegisterKey, CodecError>(CodecError::InvalidKey),
{
    if fan > 9 {
        return Err(CodecError::InvalidKey);
    }
    Ok(RegisterKey { b0: 0x46, b1: 0x30 + fan as u8, b2: 0x41, b3: 0x63 })
}

/// The CPU temperature fallback keys, in the priority order the sensor
/// layer tries them when no per-core key yields a plausible reading:
/// proximity "TC0P", die "TC0D", electrical "TC0E", package "TC0F",
/// core "TC0c".
pub fn cpu_temp_fallback_keys() -> (r: Vec<RegisterKey>)
    ensures
        r@.len() == 5,
        forall|i: int|
            0 <= i < 5 ==> (#[trigger] r@[i]) == (RegisterKey {
                b0: 0x54,
                b1: 0x43,
                b2: 0x30,
                b3: cpu_temp_fallback_suffixes()[i],
            }),
{
    let mut v: Vec<RegisterKey> = Vec::new();
    v.push(RegisterKey { b0: 0x54, b1: 0x43, b2: 0x30, b3: 0x50 });  // "TC0P"
    v.push(RegisterKey { b0: 0x54, b1: 0x43, b2: 0x30, b3: 0x44 });  // "TC0D"
    v.push(RegisterKey { b0: 0x54, b1: 0x43, b2: 0x30, b3: 0x45 });  // "TC0E"
    v.push(RegisterKey { b0: 0x54, b1: 0x43, b2: 0x30, b3: 0x46 });  // "TC0F"
    v.push(RegisterKey { b0: 0x54, b1: 0x43, b2: 0x30, b3: 0x63 });  // "TC0c"
    v
}

/// The final character of each fallback key, in priority order:
/// 'P', 'D', 'E', 'F', 'c'.
pub open spec fn cpu_temp_fallback_suffixes() -> Seq<u8> {
    seq![0x50u8, 0x44u8, 0x45u8, 0x46u8, 0x63u8]
}

} // verus!
