//! Strings on the wire: NUL-terminated text and text behind a length prefix.

use vstd::prelude::*;
use vstd::slice::{slice_subrange, slice_to_vec};
use vstd::string::StringSliceAdditionalSpecFns;
use vstd::utf8::{
    char_u32_cast, decode_utf8, encode_scalar, encode_utf8, encode_utf8_decode_utf8,
    encode_utf8_valid_utf8, has_width_1_encoding, last_continuation_byte, leading_byte_width_1,
    leading_byte_width_2, leading_byte_width_3, leading_byte_width_4, second_last_continuation_byte,
    third_last_continuation_byte, valid_utf8,
};

verus! {

/// The index of the first zero byte of `s`, or its length where it has none.
pub open spec fn nul_index(s: Seq<u8>) -> int
    decreases s.len(),
{
    if s.len() == 0 || s[0] == 0 {
        0
    } else {
        1 + nul_index(s.drop_first())
    }
}

/// The bytes of `s` before its first zero byte.
pub open spec fn until_nul(s: Seq<u8>) -> Seq<u8> {
    s.take(nul_index(s))
}

/// The text that `bytes` encode in UTF-8, or the empty text where they
/// encode none.
pub open spec fn utf8_or_empty(bytes: Seq<u8>) -> Seq<char> {
    if valid_utf8(bytes) {
        decode_utf8(bytes)
    } else {
        Seq::empty()
    }
}

/// What a reader of a length-prefixed string reports when the prefix or the
/// bytes it announces do not lie within the buffer.
pub open spec fn prefixed_string_failure() -> Seq<char> {
    "Fail to read prefixed string little endiant"@
}

/// Whether a four-byte prefix at `offset` and `length` bytes behind it lie
/// within `buffer`.
pub open spec fn prefixed_string_fits(buffer: Seq<u8>, offset: int, length: int) -> bool {
    offset + 4 + length <= buffer.len()
}

/// The string of `length` bytes behind the four-byte prefix at `offset`.
pub open spec fn prefixed_string(buffer: Seq<u8>, offset: int, length: int) -> Seq<char> {
    if prefixed_string_fits(buffer, offset, length) {
        utf8_or_empty(buffer.subrange(offset + 4, offset + 4 + length))
    } else {
        prefixed_string_failure()
    }
}

/// `nul_index` is the one place that is a zero byte or the end and has no
/// zero byte before it.
pub proof fn lemma_nul_index(s: Seq<u8>)
    ensures
        0 <= nul_index(s) <= s.len(),
        forall|j: int| 0 <= j < nul_index(s) ==> s[j] != 0,
        nul_index(s) < s.len() ==> s[nul_index(s)] == 0,
    decreases s.len(),
{
    if s.len() > 0 && s[0] != 0 {
        let t = s.drop_first();
        lemma_nul_index(t);
        assert forall|j: int| 0 <= j < nul_index(s) implies s[j] != 0 by {
            if j > 0 {
                assert(s[j] == t[j - 1]);
            }
        }
    }
}

/// A place that is a zero byte or the end, with no zero byte before it, is
/// `nul_index`.
pub proof fn lemma_nul_index_unique(s: Seq<u8>, i: int)
    requires
        0 <= i <= s.len(),
        forall|j: int| 0 <= j < i ==> s[j] != 0,
        i < s.len() ==> s[i] == 0,
    ensures
        nul_index(s) == i,
{
    lemma_nul_index(s);
    let k = nul_index(s);
    if k < i {
        assert(s[k] != 0);
    } else if i < k {
        assert(s[i] != 0);
    }
}

/// No byte of the encoding of a scalar other than zero is zero.
proof fn lemma_scalar_bytes_nonzero(c: u32)
    requires
        c != 0,
    ensures
        forall|j: int| 0 <= j < encode_scalar(c).len() ==> encode_scalar(c)[j] != 0,
{
    assert(has_width_1_encoding(c) ==> leading_byte_width_1(c) != 0) by (bit_vector)
        requires
            c != 0,
    ;
    assert(leading_byte_width_2(c) != 0) by (bit_vector);
    assert(leading_byte_width_3(c) != 0) by (bit_vector);
    assert(leading_byte_width_4(c) != 0) by (bit_vector);
    assert(last_continuation_byte(c) != 0) by (bit_vector);
    assert(second_last_continuation_byte(c) != 0) by (bit_vector);
    assert(third_last_continuation_byte(c) != 0) by (bit_vector);
}

/// No byte of the UTF-8 encoding of a text without a NUL character is zero.
pub proof fn lemma_encoding_has_no_nul(chars: Seq<char>)
    requires
        forall|i: int| 0 <= i < chars.len() ==> chars[i] != '\0',
    ensures
        forall|j: int| 0 <= j < encode_utf8(chars).len() ==> encode_utf8(chars)[j] != 0,
    decreases chars.len(),
{
    if chars.len() > 0 {
        let c = chars[0] as u32;
        assert(chars[0] != '\0');
        assert(c != 0) by {
            char_u32_cast(chars[0], c);
            char_u32_cast('\0', 0u32);
        }
        lemma_scalar_bytes_nonzero(c);
        let rest = chars.drop_first();
        assert forall|i: int| 0 <= i < rest.len() implies rest[i] != '\0' by {
            assert(rest[i] == chars[i + 1]);
        }
        lemma_encoding_has_no_nul(rest);
        let head = encode_scalar(c);
        let tail = encode_utf8(rest);
        assert(encode_utf8(chars) == head + tail);
        assert forall|j: int| 0 <= j < encode_utf8(chars).len() implies encode_utf8(chars)[j]
            != 0 by {
            if j < head.len() {
                assert(encode_utf8(chars)[j] == head[j]);
            } else {
                assert(encode_utf8(chars)[j] == tail[j - head.len()]);
            }
        }
    }
}

/// A text without a NUL character is read back from its bytes followed by
/// a zero byte.
pub proof fn lemma_nul_terminated_roundtrip(chars: Seq<char>)
    requires
        forall|i: int| 0 <= i < chars.len() ==> chars[i] != '\0',
    ensures
        utf8_or_empty(until_nul(encode_utf8(chars).push(0))) == chars,
{
    let bytes = encode_utf8(chars);
    lemma_encoding_has_no_nul(chars);
    lemma_nul_index_unique(bytes.push(0), bytes.len() as int);
    assert(until_nul(bytes.push(0)) =~= bytes);
    encode_utf8_valid_utf8(chars);
    encode_utf8_decode_utf8(chars);
}

/// `core::str::from_utf8`: the text of `bytes` where they are well-formed
/// UTF-8, that is, a string whose encoding is `bytes`; nothing where they are
/// not.
#[verifier::external_body]
pub(crate) fn str_from_utf8(bytes: &[u8]) -> (text: Option<&str>)
    ensures
        text is Some <==> valid_utf8(bytes@),
        text is Some ==> text->0.spec_bytes() == bytes@,
{
    core::str::from_utf8(bytes).ok()
}

/// The text of `bytes`, or the empty string where they are not UTF-8.
pub(crate) fn str_or_empty(bytes: &[u8]) -> (text: &str)
    ensures
        text@ == utf8_or_empty(bytes@),
{
    match str_from_utf8(bytes) {
        Some(text) => {
            proof {
                encode_utf8_decode_utf8(text@);
            }
            text
        },
        None => {
            proof {
                reveal_strlit("");
            }
            assert(""@ =~= Seq::<char>::empty());
            ""
        },
    }
}

/// The text before the first zero byte of `utf8_src`, or all of it where no
/// byte is zero; the empty string where those bytes are not UTF-8.
pub fn str_from_u8_nul_utf8_checked(utf8_src: &[u8]) -> (text: &str)
    ensures
        text@ == utf8_or_empty(until_nul(utf8_src@)),
{
    let mut end: usize = 0;
    while end < utf8_src.len() && utf8_src[end] != 0
        invariant
            end <= utf8_src@.len(),
            forall|j: int| 0 <= j < end ==> utf8_src@[j] != 0,
        decreases utf8_src@.len() - end,
    {
        end = end + 1;
    }
    proof {
        lemma_nul_index_unique(utf8_src@, end as int);
    }
    str_or_empty(slice_subrange(utf8_src, 0, end))
}

/// The bytes of `data` followed by one zero byte.
pub fn u8_from_str_nul_utf8_unchecked(data: &str) -> (bytes: Vec<u8>)
    ensures
        bytes@ == encode_utf8(data@).push(0),
{
    let mut bytes = slice_to_vec(data.as_bytes());
    bytes.push(0);
    bytes
}

/// The string of `length` bytes that follows the four-byte length prefix at
/// `offset`: their text, or the empty string where they are not UTF-8. Where
/// the prefix or the bytes do not lie within `buffer`, a fixed message.
pub fn read_prefixed_string_le(buffer: &[u8], offset: usize, length: u32) -> (text: String)
    ensures
        text@ == prefixed_string(buffer@, offset as int, length as int),
{
    let len = buffer.len();
    if offset > len || len - offset < 4 || ((len - offset - 4) as u64) < length as u64 {
        "Fail to read prefixed string little endiant".to_owned()
    } else {
        let start = offset + 4;
        str_or_empty(slice_subrange(buffer, start, start + length as usize)).to_owned()
    }
}

} // verus!
