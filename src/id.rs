use vstd::prelude::*;

verus! {

/// A widget identifier, recomputed every frame from a stable key such as the
/// declaration site of the widget.
#[derive(Copy, Clone, PartialEq, Eq, Structural, Debug)]
pub struct Id(pub u64);

/// Offset basis of the 64-bit FNV hash.
pub const FNV_OFFSET: u64 = 0xcbf2_9ce4_8422_2325;

/// Prime of the 64-bit FNV hash.
pub const FNV_PRIME: u64 = 0x0000_0100_0000_01b3;

/// The value reserved for "no real widget".
pub const INVALID_ID: u64 = 0xFFFF_FFFF_FFFF_FFFF;

/// One hashing step: multiply by the prime (modulo 2^64), then mix in the byte.
pub open spec fn fnv_byte(hash: u64, byte: u8) -> u64 {
    hash.wrapping_mul(FNV_PRIME) ^ (byte as u64)
}

/// Byte `i` (0 = least significant) of a 32-bit value.
pub open spec fn byte_of(data: u32, i: int) -> u8 {
    if i == 0 {
        (data % 256) as u8
    } else if i == 1 {
        ((data / 256) % 256) as u8
    } else if i == 2 {
        ((data / 65536) % 256) as u8
    } else {
        (data / 16777216) as u8
    }
}

/// Hashes the four little-endian bytes of `data` into `hash`, lowest byte first.
pub open spec fn fnv_u32(hash: u64, data: u32) -> u64 {
    fnv_byte(fnv_byte(fnv_byte(fnv_byte(hash, byte_of(data, 0)), byte_of(data, 1)), byte_of(data, 2)), byte_of(data, 3))
}

/// The identifier of the declaration site (`line`, `column`).
pub open spec fn id_of(line: u32, column: u32) -> u64 {
    fnv_u32(fnv_u32(FNV_OFFSET, line), column)
}

impl Id {
    /// *The* invalid identifier: it states explicitly that no existing widget
    /// is referenced.
    pub fn invalid() -> (r: Id)
        ensures
            r == Id(INVALID_ID),
    {
        Id(INVALID_ID)
    }

    pub open spec fn is_invalid(self) -> bool {
        self.0 == INVALID_ID
    }
}

fn hash_u32(hash: u64, data: u32) -> (r: u64)
    ensures
        r == fnv_u32(hash, data),
{
    let b0: u8 = (data % 256) as u8;
    let b1: u8 = ((data / 256) % 256) as u8;
    let b2: u8 = ((data / 65536) % 256) as u8;
    let b3: u8 = (data / 16777216) as u8;
    let mut h: u64 = hash;
    h = h.wrapping_mul(FNV_PRIME) ^ (b0 as u64);
    h = h.wrapping_mul(FNV_PRIME) ^ (b1 as u64);
    h = h.wrapping_mul(FNV_PRIME) ^ (b2 as u64);
    h = h.wrapping_mul(FNV_PRIME) ^ (b3 as u64);
    h
}

/// Builds a widget identifier from the line and column of its declaration.
pub fn make_id(line: u32, column: u32) -> (r: Id)
    ensures
        r == Id(id_of(line, column)),
{
    let fnv = hash_u32(FNV_OFFSET, line);
    Id(hash_u32(fnv, column))
}

/// Identity is structural: the same declaration site always yields the same
/// identifier.
pub proof fn lemma_make_id_deterministic(line1: u32, column1: u32, line2: u32, column2: u32)
    requires
        line1 == line2,
        column1 == column2,
    ensures
        id_of(line1, column1) == id_of(line2, column2),
{
}

} // verus!
