//! Scan frames: 132 bytes that carry a sync pattern, a checksum, the start
//! angle of a sweep and 32 cabins.
use vstd::prelude::*;

use crate::error::LidarError;

verus! {

/// The size of a scan frame in bytes.
pub const FRAME_LEN: usize = 132;

/// The number of cabins in a frame.
pub const CABIN_COUNT: usize = 32;

/// The value that the top nibbles of the first two bytes must form.
pub const SYNC: u8 = 0xa5;

/// An instant of the monotonic clock, carried through without being read.
#[verifier::external_type_specification]
#[verifier::external_body]
pub struct ExInstant(std::time::Instant);

/// Relies on std::time::Instant::now to read the monotonic clock; nothing
/// is assumed of the value read.
pub assume_specification[ std::time::Instant::now ]() -> std::time::Instant;

/// One decoded scan frame.
pub struct ScanPacket {
    /// When the frame was decoded.
    pub captured_at: std::time::Instant,
    /// Whether this frame begins a new revolution.
    pub start_of_new_revolution: bool,
    /// The angle at which the frame's sweep begins, in 1/64 degree.
    pub start_angle_q6: u16,
    /// The 32 cabin words, in stream order.
    pub cabins: [u32; 32],
}

/// The sync pattern: the top nibble of byte 0 over the top nibble of byte 1.
pub open spec fn sync_of(b: Seq<u8>) -> u8 {
    (b[0] & 0xf0u8) | (b[1] >> 4u8)
}

/// The checksum carried in the frame: the low nibble of byte 0 under the
/// low nibble of byte 1.
pub open spec fn checksum_of(b: Seq<u8>) -> u8 {
    (b[0] & 0x0fu8) | (b[1] << 4u8)
}

/// The exclusive or of the bytes at `lo .. hi`.
pub open spec fn xor_range(b: Seq<u8>, lo: int, hi: int) -> u8
    decreases hi - lo,
{
    if hi <= lo {
        0
    } else {
        xor_range(b, lo, hi - 1) ^ b[hi - 1]
    }
}

/// The checksum that the payload calls for: the exclusive or of every
/// byte from offset 2 on.
pub open spec fn payload_checksum(b: Seq<u8>) -> u8 {
    xor_range(b, 2, b.len() as int)
}

/// The start angle: bytes 2 and 3 little-endian, without the top bit.
pub open spec fn start_angle_of(b: Seq<u8>) -> int {
    b[2] as int + (b[3] % 128) as int * 256
}

/// The start-of-revolution flag: the top bit of byte 3.
pub open spec fn new_revolution_of(b: Seq<u8>) -> bool {
    b[3] >= 128
}

/// The little-endian 32-bit word at `at`.
pub open spec fn le_u32_at(b: Seq<u8>, at: int) -> int {
    b[at] as int + b[at + 1] as int * 0x100 + b[at + 2] as int * 0x1_0000 + b[at + 3] as int
        * 0x100_0000
}

/// Cabin `k` of a frame.
pub open spec fn cabin_of(b: Seq<u8>, k: int) -> int {
    le_u32_at(b, 4 + 4 * k)
}

/// The error that a frame's header calls for, if any: a sync mismatch
/// first, then a checksum mismatch.
pub open spec fn frame_error(b: Seq<u8>) -> Option<LidarError> {
    if sync_of(b) != SYNC {
        Some(LidarError::Framing)
    } else if checksum_of(b) != payload_checksum(b) {
        Some(LidarError::Integrity)
    } else {
        None
    }
}

impl ScanPacket {
    /// The packet holds what frame `b` carries (all but the timestamp).
    pub open spec fn decoded_from(&self, b: Seq<u8>) -> bool {
        &&& self.start_of_new_revolution == new_revolution_of(b)
        &&& self.start_angle_q6 == start_angle_of(b)
        &&& forall|k: int| 0 <= k < 32 ==> self.cabins[k] == cabin_of(b, k)
    }
}

/// Reads the little-endian word at `at`.
fn read_le_u32(bytes: &[u8; 132], at: usize) -> (r: u32)
    requires
        at + 4 <= 132,
    ensures
        r == le_u32_at(bytes@, at as int),
{
    bytes[at] as u32 + bytes[at + 1] as u32 * 0x100 + bytes[at + 2] as u32 * 0x1_0000
        + bytes[at + 3] as u32 * 0x100_0000
}

/// Validates and decodes one scan frame. A frame whose sync pattern is
/// wrong fails with `Framing` before its checksum is looked at; one whose
/// checksum is wrong fails with `Integrity`.
pub fn deserialize_express_scan_extended(bytes: &[u8; 132]) -> (r: Result<ScanPacket, LidarError>)
    ensures
        frame_error(bytes@) is Some <==> r is Err,
        r is Err ==> r->Err_0 == frame_error(bytes@)->Some_0,
        r is Ok ==> r->Ok_0.decoded_from(bytes@),
{
    let captured_at = std::time::Instant::now();
    let sync: u8 = (bytes[0] & 0xf0) | (bytes[1] >> 4u8);
    if sync != SYNC {
        return Err(LidarError::Framing);
    }
    let checksum: u8 = (bytes[0] & 0x0f) | (bytes[1] << 4u8);
    let mut check: u8 = 0;
    let mut i: usize = 2;
    while i < FRAME_LEN
        invariant
            2 <= i <= FRAME_LEN,
            bytes@.len() == FRAME_LEN,
            check == xor_range(bytes@, 2, i as int),
        decreases FRAME_LEN - i,
    {
        check = check ^ bytes[i];
        i = i + 1;
    }
    if checksum != check {
        return Err(LidarError::Integrity);
    }
    let flags_byte = bytes[3];
    let start_of_new_revolution = flags_byte & 0x80 != 0;
    let start_angle_q6: u16 = bytes[2] as u16 + (flags_byte & 0x7f) as u16 * 256;
    assert((flags_byte & 0x80 != 0) == (flags_byte >= 128) && (flags_byte & 0x7f) == flags_byte
        % 128) by (bit_vector);

    let mut cabins = [0u32; 32];
    let mut k: usize = 0;
    while k < CABIN_COUNT
        invariant
            0 <= k <= CABIN_COUNT,
            cabins@.len() == 32,
            forall|m: int| 0 <= m < k ==> cabins[m] == cabin_of(bytes@, m),
        decreases CABIN_COUNT - k,
    {
        cabins[k] = read_le_u32(bytes, 4 + 4 * k);
        k = k + 1;
    }
    Ok(ScanPacket { captured_at, start_of_new_revolution, start_angle_q6, cabins })
}

} // verus!
