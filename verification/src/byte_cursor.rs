//! Fixed-width integer encodings and a read cursor over a byte buffer.
//!
//! The encodings are stated as arithmetic on byte values; the executable
//! conversions are done by the `byteorder` crate.

use byteorder::{BigEndian, ByteOrder, LittleEndian, WriteBytesExt};
use vstd::arithmetic::div_mod::lemma_fundamental_div_mod_converse;
use vstd::prelude::*;

verus! {

/// The value of two bytes read most significant first.
pub open spec fn be_u16(s: Seq<u8>) -> u16
    recommends
        s.len() == 2,
{
    (s[0] as int * 0x100 + s[1] as int) as u16
}

/// The value of four bytes read most significant first.
pub open spec fn be_u32(s: Seq<u8>) -> u32
    recommends
        s.len() == 4,
{
    (s[0] as int * 0x100_0000 + s[1] as int * 0x1_0000 + s[2] as int * 0x100 + s[3] as int) as u32
}

/// The value of eight bytes read most significant first.
pub open spec fn be_u64(s: Seq<u8>) -> u64
    recommends
        s.len() == 8,
{
    (be_u32(s.subrange(0, 4)) as int * 0x1_0000_0000 + be_u32(s.subrange(4, 8)) as int) as u64
}

/// The value of four bytes read least significant first.
pub open spec fn le_u32(s: Seq<u8>) -> u32
    recommends
        s.len() == 4,
{
    (s[3] as int * 0x100_0000 + s[2] as int * 0x1_0000 + s[1] as int * 0x100 + s[0] as int) as u32
}

/// The value of eight bytes read least significant first.
pub open spec fn le_u64(s: Seq<u8>) -> u64
    recommends
        s.len() == 8,
{
    (le_u32(s.subrange(4, 8)) as int * 0x1_0000_0000 + le_u32(s.subrange(0, 4)) as int) as u64
}

/// The two bytes of `v`, most significant first.
pub open spec fn u16_be_bytes(v: u16) -> Seq<u8> {
    seq![(v / 0x100) as u8, (v % 0x100) as u8]
}

/// The four bytes of `v`, most significant first.
pub open spec fn u32_be_bytes(v: u32) -> Seq<u8> {
    seq![
        (v / 0x100_0000) as u8,
        (v / 0x1_0000 % 0x100) as u8,
        (v / 0x100 % 0x100) as u8,
        (v % 0x100) as u8,
    ]
}

/// The eight bytes of `v`, most significant first.
pub open spec fn u64_be_bytes(v: u64) -> Seq<u8> {
    u32_be_bytes((v / 0x1_0000_0000) as u32) + u32_be_bytes((v % 0x1_0000_0000) as u32)
}

/// The four bytes of `v`, least significant first.
pub open spec fn u32_le_bytes(v: u32) -> Seq<u8> {
    seq![
        (v % 0x100) as u8,
        (v / 0x100 % 0x100) as u8,
        (v / 0x1_0000 % 0x100) as u8,
        (v / 0x100_0000) as u8,
    ]
}

/// The eight bytes of `v`, least significant first.
pub open spec fn u64_le_bytes(v: u64) -> Seq<u8> {
    u32_le_bytes((v % 0x1_0000_0000) as u32) + u32_le_bytes((v / 0x1_0000_0000) as u32)
}

/// The base-256 digits of a number written with four of them.
proof fn lemma_four_digits(a: int, b: int, c: int, d: int)
    requires
        0 <= a < 0x100,
        0 <= b < 0x100,
        0 <= c < 0x100,
        0 <= d < 0x100,
    ensures
        ({
            let v = a * 0x100_0000 + b * 0x1_0000 + c * 0x100 + d;
            &&& 0 <= v < 0x1_0000_0000
            &&& v / 0x100_0000 == a
            &&& v / 0x1_0000 % 0x100 == b
            &&& v / 0x100 % 0x100 == c
            &&& v % 0x100 == d
        }),
{
    let v = a * 0x100_0000 + b * 0x1_0000 + c * 0x100 + d;
    lemma_fundamental_div_mod_converse(v, 0x100_0000, a, b * 0x1_0000 + c * 0x100 + d);
    lemma_fundamental_div_mod_converse(v, 0x1_0000, a * 0x100 + b, c * 0x100 + d);
    lemma_fundamental_div_mod_converse(a * 0x100 + b, 0x100, a, b);
    lemma_fundamental_div_mod_converse(v, 0x100, a * 0x1_0000 + b * 0x100 + c, d);
    lemma_fundamental_div_mod_converse(a * 0x1_0000 + b * 0x100 + c, 0x100, a * 0x100 + b, c);
}

/// Decoding the big-endian bytes of a 16-bit value gives the value back.
pub proof fn lemma_be_u16_roundtrip(v: u16)
    ensures
        u16_be_bytes(v).len() == 2,
        be_u16(u16_be_bytes(v)) == v,
{
}

/// Encoding the value of two big-endian bytes gives the bytes back.
pub proof fn lemma_be_u16_bytes_roundtrip(s: Seq<u8>)
    requires
        s.len() == 2,
    ensures
        u16_be_bytes(be_u16(s)) == s,
{
    assert(u16_be_bytes(be_u16(s)) =~= s);
}

/// Decoding the big-endian bytes of a 32-bit value gives the value back.
pub proof fn lemma_be_u32_roundtrip(v: u32)
    ensures
        u32_be_bytes(v).len() == 4,
        be_u32(u32_be_bytes(v)) == v,
{
}

/// Encoding the value of four big-endian bytes gives the bytes back.
pub proof fn lemma_be_u32_bytes_roundtrip(s: Seq<u8>)
    requires
        s.len() == 4,
    ensures
        u32_be_bytes(be_u32(s)) == s,
{
    lemma_four_digits(s[0] as int, s[1] as int, s[2] as int, s[3] as int);
    assert(u32_be_bytes(be_u32(s)) =~= s);
}

/// Decoding the big-endian bytes of a 64-bit value gives the value back.
pub proof fn lemma_be_u64_roundtrip(v: u64)
    ensures
        u64_be_bytes(v).len() == 8,
        be_u64(u64_be_bytes(v)) == v,
{
    let hi = (v / 0x1_0000_0000) as u32;
    let lo = (v % 0x1_0000_0000) as u32;
    let s = u64_be_bytes(v);
    lemma_be_u32_roundtrip(hi);
    lemma_be_u32_roundtrip(lo);
    assert(s.subrange(0, 4) =~= u32_be_bytes(hi));
    assert(s.subrange(4, 8) =~= u32_be_bytes(lo));
}

/// Encoding the value of eight big-endian bytes gives the bytes back.
pub proof fn lemma_be_u64_bytes_roundtrip(s: Seq<u8>)
    requires
        s.len() == 8,
    ensures
        u64_be_bytes(be_u64(s)) == s,
{
    lemma_be_u32_bytes_roundtrip(s.subrange(0, 4));
    lemma_be_u32_bytes_roundtrip(s.subrange(4, 8));
    lemma_fundamental_div_mod_converse(
        be_u64(s) as int,
        0x1_0000_0000,
        be_u32(s.subrange(0, 4)) as int,
        be_u32(s.subrange(4, 8)) as int,
    );
    assert(u64_be_bytes(be_u64(s)) =~= s.subrange(0, 4) + s.subrange(4, 8));
    assert(s.subrange(0, 4) + s.subrange(4, 8) =~= s);
}

/// Decoding the little-endian bytes of a 32-bit value gives the value back.
pub proof fn lemma_le_u32_roundtrip(v: u32)
    ensures
        u32_le_bytes(v).len() == 4,
        le_u32(u32_le_bytes(v)) == v,
{
}

/// Encoding the value of four little-endian bytes gives the bytes back.
pub proof fn lemma_le_u32_bytes_roundtrip(s: Seq<u8>)
    requires
        s.len() == 4,
    ensures
        u32_le_bytes(le_u32(s)) == s,
{
    lemma_four_digits(s[3] as int, s[2] as int, s[1] as int, s[0] as int);
    assert(u32_le_bytes(le_u32(s)) =~= s);
}

/// Decoding the little-endian bytes of a 64-bit value gives the value back.
pub proof fn lemma_le_u64_roundtrip(v: u64)
    ensures
        u64_le_bytes(v).len() == 8,
        le_u64(u64_le_bytes(v)) == v,
{
    let hi = (v / 0x1_0000_0000) as u32;
    let lo = (v % 0x1_0000_0000) as u32;
    let s = u64_le_bytes(v);
    lemma_le_u32_roundtrip(hi);
    lemma_le_u32_roundtrip(lo);
    assert(s.subrange(0, 4) =~= u32_le_bytes(lo));
    assert(s.subrange(4, 8) =~= u32_le_bytes(hi));
}

/// Encoding the value of eight little-endian bytes gives the bytes back.
pub proof fn lemma_le_u64_bytes_roundtrip(s: Seq<u8>)
    requires
        s.len() == 8,
    ensures
        u64_le_bytes(le_u64(s)) == s,
{
    lemma_le_u32_bytes_roundtrip(s.subrange(0, 4));
    lemma_le_u32_bytes_roundtrip(s.subrange(4, 8));
    lemma_fundamental_div_mod_converse(
        le_u64(s) as int,
        0x1_0000_0000,
        le_u32(s.subrange(4, 8)) as int,
        le_u32(s.subrange(0, 4)) as int,
    );
    assert(u64_le_bytes(le_u64(s)) =~= s.subrange(0, 4) + s.subrange(4, 8));
    assert(s.subrange(0, 4) + s.subrange(4, 8) =~= s);
}

/// `byteorder::ByteOrder::read_u16` of `BigEndian` on the bytes from `at` on:
/// the first two of them, most significant first. It panics on fewer than
/// two bytes, which the precondition excludes.
#[verifier::external_body]
pub(crate) fn get_u16_be(data: &[u8], at: usize) -> (v: u16)
    requires
        at + 2 <= data@.len(),
    ensures
        v == be_u16(data@.subrange(at as int, at + 2)),
{
    BigEndian::read_u16(&data[at..])
}

/// `byteorder::ByteOrder::read_u32` of `BigEndian` on the bytes from `at` on:
/// the first four of them, most significant first.
#[verifier::external_body]
pub(crate) fn get_u32_be(data: &[u8], at: usize) -> (v: u32)
    requires
        at + 4 <= data@.len(),
    ensures
        v == be_u32(data@.subrange(at as int, at + 4)),
{
    BigEndian::read_u32(&data[at..])
}

/// `byteorder::ByteOrder::read_u64` of `BigEndian` on the bytes from `at` on:
/// the first eight of them, most significant first.
#[verifier::external_body]
pub(crate) fn get_u64_be(data: &[u8], at: usize) -> (v: u64)
    requires
        at + 8 <= data@.len(),
    ensures
        v == be_u64(data@.subrange(at as int, at + 8)),
{
    BigEndian::read_u64(&data[at..])
}

/// `byteorder::ByteOrder::read_u32` of `LittleEndian` on the bytes from `at`
/// on: the first four of them, least significant first.
#[verifier::external_body]
pub(crate) fn get_u32_le(data: &[u8], at: usize) -> (v: u32)
    requires
        at + 4 <= data@.len(),
    ensures
        v == le_u32(data@.subrange(at as int, at + 4)),
{
    LittleEndian::read_u32(&data[at..])
}

/// `byteorder::ByteOrder::read_u64` of `LittleEndian` on the bytes from `at`
/// on: the first eight of them, least significant first.
#[verifier::external_body]
pub(crate) fn get_u64_le(data: &[u8], at: usize) -> (v: u64)
    requires
        at + 8 <= data@.len(),
    ensures
        v == le_u64(data@.subrange(at as int, at + 8)),
{
    LittleEndian::read_u64(&data[at..])
}

/// `byteorder::WriteBytesExt::write_u16` with `BigEndian` on a vector, which
/// appends the two bytes of `v`, most significant first, and cannot fail.
#[verifier::external_body]
pub(crate) fn put_u16_be(wtr: &mut Vec<u8>, v: u16)
    ensures
        final(wtr)@ == old(wtr)@ + u16_be_bytes(v),
{
    wtr.write_u16::<BigEndian>(v).unwrap_or_default();
}

/// `byteorder::WriteBytesExt::write_u32` with `BigEndian` on a vector, which
/// appends the four bytes of `v`, most significant first, and cannot fail.
#[verifier::external_body]
pub(crate) fn put_u32_be(wtr: &mut Vec<u8>, v: u32)
    ensures
        final(wtr)@ == old(wtr)@ + u32_be_bytes(v),
{
    wtr.write_u32::<BigEndian>(v).unwrap_or_default();
}

/// `byteorder::WriteBytesExt::write_u64` with `BigEndian` on a vector, which
/// appends the eight bytes of `v`, most significant first, and cannot fail.
#[verifier::external_body]
pub(crate) fn put_u64_be(wtr: &mut Vec<u8>, v: u64)
    ensures
        final(wtr)@ == old(wtr)@ + u64_be_bytes(v),
{
    wtr.write_u64::<BigEndian>(v).unwrap_or_default();
}

/// `byteorder::WriteBytesExt::write_u32` with `LittleEndian` on a vector,
/// which appends the four bytes of `v`, least significant first, and cannot
/// fail.
#[verifier::external_body]
pub(crate) fn put_u32_le(wtr: &mut Vec<u8>, v: u32)
    ensures
        final(wtr)@ == old(wtr)@ + u32_le_bytes(v),
{
    wtr.write_u32::<LittleEndian>(v).unwrap_or_default();
}

/// `byteorder::WriteBytesExt::write_u64` with `LittleEndian` on a vector,
/// which appends the eight bytes of `v`, least significant first, and cannot
/// fail.
#[verifier::external_body]
pub(crate) fn put_u64_le(wtr: &mut Vec<u8>, v: u64)
    ensures
        final(wtr)@ == old(wtr)@ + u64_le_bytes(v),
{
    wtr.write_u64::<LittleEndian>(v).unwrap_or_default();
}

/// Whether `n` bytes lie in `data` from `pos` on.
pub open spec fn can_read(data: Seq<u8>, pos: int, n: int) -> bool {
    0 <= pos && pos + n <= data.len()
}

/// Where a read of `n` bytes at `pos` leaves the position: behind the bytes
/// when they are there, at the end of the data when they are not.
pub open spec fn pos_after(data: Seq<u8>, pos: int, n: int) -> int {
    if can_read(data, pos, n) {
        pos + n
    } else {
        data.len() as int
    }
}

/// The byte at `pos`, or zero past the end.
pub open spec fn u8_at(data: Seq<u8>, pos: int) -> u8 {
    if can_read(data, pos, 1) {
        data[pos]
    } else {
        0
    }
}

/// The big-endian 16-bit value at `pos`, or zero where two bytes are not left.
pub open spec fn be_u16_at(data: Seq<u8>, pos: int) -> u16 {
    if can_read(data, pos, 2) {
        be_u16(data.subrange(pos, pos + 2))
    } else {
        0
    }
}

/// The big-endian 32-bit value at `pos`, or zero where four bytes are not left.
pub open spec fn be_u32_at(data: Seq<u8>, pos: int) -> u32 {
    if can_read(data, pos, 4) {
        be_u32(data.subrange(pos, pos + 4))
    } else {
        0
    }
}

/// The big-endian 64-bit value at `pos`, or zero where eight bytes are not left.
pub open spec fn be_u64_at(data: Seq<u8>, pos: int) -> u64 {
    if can_read(data, pos, 8) {
        be_u64(data.subrange(pos, pos + 8))
    } else {
        0
    }
}

/// The little-endian 32-bit value at `pos`, or zero where four bytes are not left.
pub open spec fn le_u32_at(data: Seq<u8>, pos: int) -> u32 {
    if can_read(data, pos, 4) {
        le_u32(data.subrange(pos, pos + 4))
    } else {
        0
    }
}

/// The little-endian 64-bit value at `pos`, or zero where eight bytes are not left.
pub open spec fn le_u64_at(data: Seq<u8>, pos: int) -> u64 {
    if can_read(data, pos, 8) {
        le_u64(data.subrange(pos, pos + 8))
    } else {
        0
    }
}

/// A read position over a borrowed byte buffer. Every read advances the
/// position by the width read; a read that finds too few bytes yields zero
/// and leaves the position at the end of the buffer.
pub struct ByteCursor<'a> {
    pub data: &'a Vec<u8>,
    pub pos: u64,
}

impl<'a> ByteCursor<'a> {
    /// A cursor at the start of `data`.
    pub fn new(data: &'a Vec<u8>) -> (rdr: Self)
        ensures
            rdr.data == data,
            rdr.pos == 0,
    {
        ByteCursor { data, pos: 0 }
    }

    /// The buffer that the cursor reads.
    pub fn get_ref(&self) -> (data: &'a Vec<u8>)
        ensures
            data == self.data,
    {
        self.data
    }

    /// The current position.
    pub fn position(&self) -> (pos: u64)
        ensures
            pos == self.pos,
    {
        self.pos
    }

    /// Moves the cursor to `pos`, which may lie past the end.
    pub fn set_position(&mut self, pos: u64)
        ensures
            final(self).data == old(self).data,
            final(self).pos == pos,
    {
        self.pos = pos;
    }

    /// The index at which `n` bytes can be read, if they are there.
    fn slot(&self, n: usize) -> (at: Option<usize>)
        ensures
            at is Some <==> can_read(self.data@, self.pos as int, n as int),
            at is Some ==> at->0 == self.pos,
    {
        let len = self.data.len();
        if self.pos <= len as u64 && n <= len - self.pos as usize {
            Some(self.pos as usize)
        } else {
            None
        }
    }

    /// Leaves the position where a read of `n` bytes leaves it.
    fn advance(&mut self, n: usize)
        ensures
            final(self).data == old(self).data,
            final(self).pos == pos_after(old(self).data@, old(self).pos as int, n as int),
    {
        let len = self.data.len();
        if self.pos <= len as u64 && n <= len - self.pos as usize {
            self.pos = self.pos + n as u64;
        } else {
            self.pos = len as u64;
        }
    }

    /// Reads one byte.
    pub fn read_u8(&mut self) -> (v: u8)
        ensures
            v == u8_at(old(self).data@, old(self).pos as int),
            final(self).data == old(self).data,
            final(self).pos == pos_after(old(self).data@, old(self).pos as int, 1),
    {
        let v = match self.slot(1) {
            Some(at) => self.data[at],
            None => 0,
        };
        self.advance(1);
        v
    }

    /// Reads a big-endian 16-bit value.
    pub fn read_u16_be(&mut self) -> (v: u16)
        ensures
            v == be_u16_at(old(self).data@, old(self).pos as int),
            final(self).data == old(self).data,
            final(self).pos == pos_after(old(self).data@, old(self).pos as int, 2),
    {
        let v = match self.slot(2) {
            Some(at) => get_u16_be(self.data.as_slice(), at),
            None => 0,
        };
        self.advance(2);
        v
    }

    /// Reads a big-endian 32-bit value.
    pub fn read_u32_be(&mut self) -> (v: u32)
        ensures
            v == be_u32_at(old(self).data@, old(self).pos as int),
            final(self).data == old(self).data,
            final(self).pos == pos_after(old(self).data@, old(self).pos as int, 4),
    {
        let v = match self.slot(4) {
            Some(at) => get_u32_be(self.data.as_slice(), at),
            None => 0,
        };
        self.advance(4);
        v
    }

    /// Reads a big-endian 64-bit value.
    pub fn read_u64_be(&mut self) -> (v: u64)
        ensures
            v == be_u64_at(old(self).data@, old(self).pos as int),
            final(self).data == old(self).data,
            final(self).pos == pos_after(old(self).data@, old(self).pos as int, 8),
    {
        let v = match self.slot(8) {
            Some(at) => get_u64_be(self.data.as_slice(), at),
            None => 0,
        };
        self.advance(8);
        v
    }

    /// Reads a little-endian 32-bit value.
    pub fn read_u32_le(&mut self) -> (v: u32)
        ensures
            v == le_u32_at(old(self).data@, old(self).pos as int),
            final(self).data == old(self).data,
            final(self).pos == pos_after(old(self).data@, old(self).pos as int, 4),
    {
        let v = match self.slot(4) {
            Some(at) => get_u32_le(self.data.as_slice(), at),
            None => 0,
        };
        self.advance(4);
        v
    }

    /// Reads a little-endian 64-bit value.
    pub fn read_u64_le(&mut self) -> (v: u64)
        ensures
            v == le_u64_at(old(self).data@, old(self).pos as int),
            final(self).data == old(self).data,
            final(self).pos == pos_after(old(self).data@, old(self).pos as int, 8),
    {
        let v = match self.slot(8) {
            Some(at) => get_u64_le(self.data.as_slice(), at),
            None => 0,
        };
        self.advance(8);
        v
    }
}

} // verus!
