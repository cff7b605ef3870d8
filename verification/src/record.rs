//! The fixed-layout record exchanged with the controller, and the two
//! request shapes of a read transaction. Field order and sizes mirror
//! the wire format the controller expects; the surrounding application
//! copies this record field for field into the platform call's buffer
//! and copies the answer back.

use vstd::prelude::*;

use crate::key::RegisterKey;

verus! {

/// Selector of the controller's key/value interface within the
/// platform's connection call.
pub const SMC_KERNEL_INDEX: u32 = 2;

/// Command selector: read a register's raw bytes (phase two).
pub const SMC_CMD_READ_BYTES: u8 = 5;

/// Command selector: read a register's key info (phase one).
pub const SMC_CMD_READ_KEYINFO: u8 = 9;

/// The platform result code that reports success; any other code fails
/// the transaction.
pub const RESULT_SUCCESS: i32 = 0;

/// Metadata the controller returns in phase one of a transaction:
/// the register's declared payload size, its 4-byte type tag, and an
/// attribute byte. It must be carried unmodified into the phase-two
/// request so the controller knows how to interpret the read.
#[derive(Clone, Copy, Debug, PartialEq, Eq)]
pub struct KeyInfo {
    pub data_size: u32,
    pub data_type: [u8; 4],
    pub data_attributes: u8,
}

/// One controller record: request and response share this layout.
/// The 32-byte payload buffer carries a register's raw bytes in a
/// response to a phase-two read.
#[derive(Clone, Copy, Debug)]
pub struct SmcRecord {
    pub key: u32,
    pub vers: [u8; 6],
    pub p_limit_data: [u8; 16],
    pub key_info: KeyInfo,
    pub result: u8,
    pub status: u8,
    pub data8: u8,
    pub data32: u32,
    pub bytes: [u8; 32],
}

/// Every byte of the sequence is zero.
pub open spec fn all_zero(s: Seq<u8>) -> bool {
    forall|i: int| 0 <= i < s.len() ==> #[trigger] s[i] == 0
}

impl KeyInfo {
    /// Zero size, zero tag, zero attributes.
    pub open spec fn is_zeroed(self) -> bool {
        self.data_size == 0 && all_zero(self.data_type@) && self.data_attributes == 0
    }
}

impl SmcRecord {
    /// Every field of the record is zero, as a fresh request must be
    /// before its key and command selector are set.
    pub open spec fn is_zeroed(self) -> bool {
        &&& self.key == 0
        &&& all_zero(self.vers@)
        &&& all_zero(self.p_limit_data@)
        &&& self.key_info.is_zeroed()
        &&& self.result == 0
        &&& self.status == 0
        &&& self.data8 == 0
        &&& self.data32 == 0
        &&& all_zero(self.bytes@)
    }

    /// All fields zero except the packed key and the command selector.
    pub open spec fn is_request(self, key: RegisterKey, command: u8) -> bool {
        &&& self.key == key.spec_packed()
        &&& all_zero(self.vers@)
        &&& all_zero(self.p_limit_data@)
        &&& self.result == 0
        &&& self.status == 0
        &&& self.data8 == command
        &&& self.data32 == 0
        &&& all_zero(self.bytes@)
    }

    /// A zero-initialized record.
    pub fn zeroed() -> (r: SmcRecord)
        ensures
            r.is_zeroed(),
    {
        SmcRecord {
            key: 0,
            vers: [0u8; 6],
            p_limit_data: [0u8; 16],
            key_info: KeyInfo { data_size: 0, data_type: [0u8; 4], data_attributes: 0 },
            result: 0,
            status: 0,
            data8: 0,
            data32: 0,
            bytes: [0u8; 32],
        }
    }
}

/// The phase-one request: a zeroed record carrying the packed key and
/// the read-key-info command selector.
pub fn keyinfo_request(key: &RegisterKey) -> (r: SmcRecord)
    ensures
        r.is_request(*key, SMC_CMD_READ_KEYINFO),
        r.key_info.is_zeroed(),
{
    let mut r = SmcRecord::zeroed();
    r.key = key.packed();
    r.data8 = SMC_CMD_READ_KEYINFO;
    r
}

/// The phase-two request: a zeroed record carrying the packed key, the
/// key info returned by phase one copied verbatim, and the read-bytes
/// command selector.
pub fn read_request(key: &RegisterKey, info: &KeyInfo) -> (r: SmcRecord)
    ensures
        r.is_request(*key, SMC_CMD_READ_BYTES),
        r.key_info == *info,
{
    let mut r = SmcRecord::zeroed();
    r.key = key.packed();
    r.key_info = *info;
    r.data8 = SMC_CMD_READ_BYTES;
    r
}

} // verus!
