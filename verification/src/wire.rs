//! Little-endian byte readers for the instruction wire format.

use vstd::prelude::*;

verus! {

/// The value of two little-endian bytes.
pub open spec fn spec_u16_le(bytes: Seq<u8>) -> int
    recommends
        bytes.len() == 2,
{
    bytes[0] + 0x100 * bytes[1]
}

/// The value of eight little-endian bytes.
pub open spec fn spec_u64_le(bytes: Seq<u8>) -> int
    recommends
        bytes.len() == 8,
{
    bytes[0] + 0x100 * bytes[1] + 0x1_0000 * bytes[2] + 0x100_0000 * bytes[3] + 0x1_0000_0000
        * bytes[4] + 0x100_0000_0000 * bytes[5] + 0x1_0000_0000_0000 * bytes[6]
        + 0x100_0000_0000_0000 * bytes[7]
}

/// Reads a little-endian `u16` at `offset`.
pub fn read_u16_le(data: &[u8], offset: usize) -> (value: u16)
    requires
        offset + 2 <= data@.len(),
    ensures
        value == spec_u16_le(data@.subrange(offset as int, offset as int + 2)),
{
    let lo: u16 = data[offset] as u16;
    let hi: u16 = data[offset + 1] as u16;
    lo + 0x100 * hi
}

/// Reads a little-endian `u64` at `offset`.
pub fn read_u64_le(data: &[u8], offset: usize) -> (value: u64)
    requires
        offset + 8 <= data@.len(),
    ensures
        value == spec_u64_le(data@.subrange(offset as int, offset as int + 8)),
{
    let b0: u64 = data[offset] as u64;
    let b1: u64 = data[offset + 1] as u64;
    let b2: u64 = data[offset + 2] as u64;
    let b3: u64 = data[offset + 3] as u64;
    let b4: u64 = data[offset + 4] as u64;
    let b5: u64 = data[offset + 5] as u64;
    let b6: u64 = data[offset + 6] as u64;
    let b7: u64 = data[offset + 7] as u64;
    b0 + 0x100 * b1 + 0x1_0000 * b2 + 0x100_0000 * b3 + 0x1_0000_0000 * b4 + 0x100_0000_0000 * b5
        + 0x1_0000_0000_0000 * b6 + 0x100_0000_0000_0000 * b7
}

/// Copies 32 bytes at `offset` into an owned array.
pub fn read_bytes32(data: &[u8], offset: usize) -> (out: [u8; 32])
    requires
        offset + 32 <= data@.len(),
    ensures
        out@ == data@.subrange(offset as int, offset as int + 32),
{
    let len: usize = data.len();
    let mut out: [u8; 32] = [0u8; 32];
    let mut i: usize = 0;
    while i < 32
        invariant
            i <= 32,
            offset + 32 <= len,
            len == data@.len(),
            forall|j: int| 0 <= j < i ==> out@[j] == data@[offset + j],
        decreases 32 - i,
    {
        out[i] = data[offset + i];
        i = i + 1;
    }
    proof {
        assert(out@ =~= data@.subrange(offset as int, offset as int + 32));
    }
    out
}

} // verus!
