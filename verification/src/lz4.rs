//! LZ4 block compression, as the `lz4_compression` crate does it.

use vstd::prelude::*;

verus! {

/// The bytes that `lz4_compression::decompress::decompress` gives for
/// `data`, or nothing where it reports an error.
pub uninterp spec fn lz4_decompressed(data: Seq<u8>) -> Option<Seq<u8>>;

/// `lz4_compression::compress::compress`: a block that
/// `lz4_compression::decompress::decompress` decodes to `data`. The crate
/// presents the two as inverse, and its encoder writes every run of literals
/// and every repetition as its decoder reads them. Which block comes back is
/// not claimed: the encoder looks up repetitions through words read in the
/// machine's byte order, so two machines may compress the same input
/// differently.
#[verifier::external_body]
fn compress_block(data: &[u8]) -> (compressed: Vec<u8>)
    ensures
        lz4_decompressed(compressed@) == Some(data@),
{
    lz4_compression::compress::compress(data)
}

/// Whether a block of `len` bytes is short enough for the decoder's length
/// counters: a length adds up to 255 for every byte read, and is added to a
/// place in the output, which holds less than half of what `usize` counts.
pub open spec fn lz4_countable(len: nat) -> bool {
    len <= usize::MAX / 512
}

/// `lz4_compression::decompress::decompress`: the decoded bytes, which
/// depend on `data` alone, or nothing where the decoder reports that `data`
/// ends early or points before its own start. The decoder adds up lengths
/// without a test for overflow; on a block that is countable they stay in
/// range.
#[verifier::external_body]
fn decompress_block(data: &[u8]) -> (bytes: Option<Vec<u8>>)
    requires
        lz4_countable(data@.len()),
    ensures
        bytes is Some <==> lz4_decompressed(data@) is Some,
        bytes is Some ==> bytes->0@ == lz4_decompressed(data@)->0,
{
    lz4_compression::decompress::decompress(data).ok()
}

/// An LZ4 block of `data`: one that decodes to `data`.
pub fn lz4_comp(data: &[u8]) -> (compressed: Vec<u8>)
    ensures
        lz4_decompressed(compressed@) == Some(data@),
{
    compress_block(data)
}

/// The bytes that the LZ4 block `data` decodes to, or nothing where it is
/// no well-formed block or too long for the decoder's counters.
pub fn lz4_decomp(data: &[u8]) -> (bytes: Option<Vec<u8>>)
    ensures
        bytes is Some <==> lz4_countable(data@.len()) && lz4_decompressed(data@) is Some,
        bytes is Some ==> bytes->0@ == lz4_decompressed(data@)->0,
{
    if data.len() > usize::MAX / 512 {
        return None;
    }
    decompress_block(data)
}

} // verus!
