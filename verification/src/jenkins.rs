//! The Jenkins one-at-a-time hash.

use vstd::prelude::*;
use vstd::utf8::encode_utf8;

verus! {

/// The running hash after one more byte.
pub open spec fn joaat_step(hash: u32, byte: u8) -> u32 {
    let added = hash.wrapping_add(byte as u32);
    let spread = added.wrapping_add(added << 10);
    spread ^ (spread >> 6)
}

/// The running hash after the bytes of `bytes`, in order.
pub open spec fn joaat_over(hash: u32, bytes: Seq<u8>) -> u32
    decreases bytes.len(),
{
    if bytes.len() == 0 {
        hash
    } else {
        joaat_step(joaat_over(hash, bytes.drop_last()), bytes.last())
    }
}

/// The hash that a running hash ends in.
pub open spec fn joaat_finish(hash: u32) -> u32 {
    let a = hash.wrapping_add(hash << 3);
    let b = a ^ (a >> 11);
    b.wrapping_add(b << 15)
}

/// The one-at-a-time hash of `bytes`.
pub open spec fn joaat_value(bytes: Seq<u8>) -> u32 {
    joaat_finish(joaat_over(0, bytes))
}

/// The one-at-a-time hash of the bytes of `string`.
pub fn joaat(string: &str) -> (hash: u32)
    ensures
        hash == joaat_value(encode_utf8(string@)),
{
    let bytes = string.as_bytes();
    let mut hash: u32 = 0;
    let mut i: usize = 0;
    while i < bytes.len()
        invariant
            i <= bytes@.len(),
            hash == joaat_over(0, bytes@.take(i as int)),
        decreases bytes@.len() - i,
    {
        assert(bytes@.take(i + 1).drop_last() =~= bytes@.take(i as int));
        hash = hash.wrapping_add(bytes[i] as u32);
        hash = hash.wrapping_add(hash << 10);
        hash = hash ^ (hash >> 6);
        i = i + 1;
    }
    assert(bytes@.take(i as int) =~= bytes@);
    hash = hash.wrapping_add(hash << 3);
    hash = hash ^ (hash >> 11);
    hash = hash.wrapping_add(hash << 15);
    hash
}

} // verus!
