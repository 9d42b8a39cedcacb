//! Chunk integrity tag: CRC-32 (IEEE polynomial, reflected form, initial
//! value `0xFFFF_FFFF`, final xor `0xFFFF_FFFF`). The Host tags every chunk
//! it sends; the Device recomputes the tag and rejects a mismatch before it
//! touches flash.

use vstd::prelude::*;

verus! {

/// One shift round: shift right, xor in the reflected polynomial if the low
/// bit was set.
pub open spec fn crc32_round(c: u32) -> u32 {
    if c & 1 == 1 {
        (c >> 1) ^ 0xEDB88320u32
    } else {
        c >> 1
    }
}

/// `n` shift rounds applied to `c`.
pub open spec fn crc32_rounds(c: u32, n: nat) -> u32
    decreases n,
{
    if n == 0 {
        c
    } else {
        crc32_round(crc32_rounds(c, (n - 1) as nat))
    }
}

/// Accumulator after folding one byte into `c`: xor the byte in, then run
/// eight shift rounds.
pub open spec fn crc32_step(c: u32, b: u8) -> u32 {
    crc32_rounds(c ^ (b as u32), 8)
}

/// Accumulator after the first `n` bytes of `s`, starting from `0xFFFF_FFFF`.
pub open spec fn crc32_acc(s: Seq<u8>, n: nat) -> u32
    decreases n,
{
    if n == 0 {
        0xFFFFFFFFu32
    } else {
        crc32_step(crc32_acc(s, (n - 1) as nat), s[n - 1])
    }
}

/// The CRC-32 of a byte sequence.
pub open spec fn crc32_of(s: Seq<u8>) -> u32 {
    crc32_acc(s, s.len()) ^ 0xFFFFFFFFu32
}

/// Computes the CRC-32 of `data`.
pub fn crc32(data: &[u8]) -> (r: u32)
    ensures
        r == crc32_of(data@),
{
    let mut c: u32 = 0xFFFFFFFF;
    let mut i: usize = 0;
    while i < data.len()
        invariant
            i <= data@.len(),
            c == crc32_acc(data@, i as nat),
        decreases data@.len() - i,
    {
        let b = data[i];
        let mut acc: u32 = c ^ (b as u32);
        let mut j: usize = 0;
        while j < 8
            invariant
                j <= 8,
                acc == crc32_rounds(c ^ (b as u32), j as nat),
        decreases 8 - j,
        {
            if acc & 1 == 1 {
                acc = (acc >> 1) ^ 0xEDB88320;
            } else {
                acc = acc >> 1;
            }
            j = j + 1;
        }
        c = acc;
        i = i + 1;
    }
    c ^ 0xFFFFFFFF
}

/// Validates a chunk's integrity tag: passes exactly when `crc` is the
/// CRC-32 of `data`.
pub fn check_crc(data: &[u8], crc: u32) -> (r: Result<(), ()>)
    ensures
        r is Ok <==> crc == crc32_of(data@),
{
    let computed = crc32(data);
    if computed == crc {
        Ok(())
    } else {
        Err(())
    }
}

} // verus!
