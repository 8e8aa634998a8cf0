//! The seeded CRC-32 that protects SOE frames, and its 16-bit suffix.

use crate::byte_cursor::{put_u16_be, u16_be_bytes};
use crate::crc_table::CRC_TABLE;
use vstd::prelude::*;
use vstd::slice::slice_to_vec;

verus! {

/// The table entry selected by the low byte of `x`.
pub open spec fn crc_entry(x: u32) -> u32 {
    CRC_TABLE[(x & 0xff) as int]
}

/// One stage of the checksum: the running value moves down one byte and is
/// combined with the entry that `x` and its low byte select.
pub open spec fn crc_stage(crc: u32, x: u32) -> u32 {
    ((crc >> 8) & 0x00ff_ffff) ^ crc_entry(x ^ crc)
}

/// The running value after the four bytes of the seed, lowest first. The first
/// of them enters inverted.
pub open spec fn crc_seeded(seed: u32) -> u32 {
    crc_stage(
        crc_stage(crc_stage(crc_entry(!seed) ^ 0x00ff_ffff, seed >> 8), seed >> 16),
        seed >> 24,
    )
}

/// The running value after every byte of `data` went through one stage, in
/// order.
pub open spec fn crc_over(crc: u32, data: Seq<u8>) -> u32
    decreases data.len(),
{
    if data.len() == 0 {
        crc
    } else {
        crc_stage(crc_over(crc, data.drop_last()), data.last() as u32)
    }
}

/// The checksum of `data` under `seed`.
pub open spec fn crc32_value(data: Seq<u8>, seed: u32) -> u32 {
    !crc_over(crc_seeded(seed), data)
}

/// The low sixteen bits of the checksum: what a frame carries.
pub open spec fn crc16_value(data: Seq<u8>, seed: u32) -> u16 {
    (crc32_value(data, seed) & 0xffff) as u16
}

/// The table entry that the low byte of `x` selects.
fn entry(x: u32) -> (e: u32)
    ensures
        e == crc_entry(x),
{
    let i = x & 0xff;
    assert(x & 0xff < 256) by (bit_vector);
    CRC_TABLE[i as usize]
}

/// The running value after one more stage.
fn stage(crc: u32, x: u32) -> (next: u32)
    ensures
        next == crc_stage(crc, x),
{
    ((crc >> 8) & 0x00ff_ffff) ^ entry(x ^ crc)
}

/// The checksum of `data` under `seed`.
fn checksum(data: &[u8], seed: u32) -> (crc: u32)
    ensures
        crc == crc32_value(data@, seed),
{
    let mut crc = entry(!seed) ^ 0x00ff_ffff;
    crc = stage(crc, seed >> 8);
    crc = stage(crc, seed >> 16);
    crc = stage(crc, seed >> 24);
    let mut i: usize = 0;
    while i < data.len()
        invariant
            i <= data@.len(),
            crc == crc_over(crc_seeded(seed), data@.take(i as int)),
        decreases data@.len() - i,
    {
        assert(data@.take(i + 1).drop_last() =~= data@.take(i as int));
        crc = stage(crc, data[i] as u32);
        i = i + 1;
    }
    assert(data@.take(i as int) =~= data@);
    !crc
}

/// The low sixteen bits of the checksum of `data` under `seed`.
pub fn crc16(data: &[u8], seed: u32) -> (crc: u16)
    ensures
        crc == crc16_value(data@, seed),
{
    let crc = checksum(data, seed);
    assert(crc & 0xffff < 0x1_0000) by (bit_vector);
    (crc & 0xffff) as u16
}

/// The checksum of `data`. Only the low 32 bits of `crc_seed` take part.
pub fn crc32(data: &Vec<u8>, crc_seed: usize) -> (crc: u32)
    ensures
        crc == crc32_value(data@, crc_seed as u32),
{
    checksum(data.as_slice(), #[verifier::truncate] (crc_seed as u32))
}

/// The checksum of `data`, for callers that hold a slice.
pub fn crc32_legacy(data: &[u8], crc_seed: usize) -> (crc: u32)
    ensures
        crc == crc32_value(data@, crc_seed as u32),
{
    checksum(data, #[verifier::truncate] (crc_seed as u32))
}

/// Appends to `data` the low sixteen bits of its checksum, most significant
/// byte first.
pub fn append_crc(data: &mut Vec<u8>, crc_seed: u32)
    ensures
        final(data)@ == old(data)@ + u16_be_bytes(crc16_value(old(data)@, crc_seed)),
{
    let crc = crc16(data.as_slice(), crc_seed);
    put_u16_be(data, crc);
}

/// A copy of `data` followed by the low sixteen bits of its checksum, most
/// significant byte first.
pub fn append_crc_legacy(data: &[u8], crc_seed: usize) -> (framed: Vec<u8>)
    ensures
        framed@ == data@ + u16_be_bytes(crc16_value(data@, crc_seed as u32)),
{
    let mut framed = slice_to_vec(data);
    append_crc(&mut framed, #[verifier::truncate] (crc_seed as u32));
    framed
}

} // verus!
