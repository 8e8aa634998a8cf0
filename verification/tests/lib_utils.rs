use h1emu_core::lib_utils::{
    read_prefixed_string_le, str_from_u8_nul_utf8_checked, u8_from_str_nul_utf8_unchecked,
};

#[test]
fn text_before_the_nul() {
    assert_eq!(
        str_from_u8_nul_utf8_checked(b"LoginUdp_9\0trailing"),
        "LoginUdp_9"
    );
    assert_eq!(str_from_u8_nul_utf8_checked(b"\0abc"), "");
    assert_eq!(str_from_u8_nul_utf8_checked(b""), "");
}

#[test]
fn text_without_a_nul_is_taken_whole() {
    assert_eq!(str_from_u8_nul_utf8_checked(b"abc"), "abc");
}

#[test]
fn text_that_is_not_utf8_reads_as_empty() {
    assert_eq!(str_from_u8_nul_utf8_checked(&[0x61, 0xff, 0x62, 0]), "");
    assert_eq!(str_from_u8_nul_utf8_checked(&[0xc3, 0]), "");
}

#[test]
fn text_of_more_than_one_byte_per_character() {
    assert_eq!(
        str_from_u8_nul_utf8_checked(&[0xc3, 0xa9, 0xe2, 0x82, 0xac, 0, 0x41]),
        "\u{e9}\u{20ac}"
    );
}

#[test]
fn bytes_with_a_closing_nul() {
    assert_eq!(
        u8_from_str_nul_utf8_unchecked("LoginUdp_9"),
        [76, 111, 103, 105, 110, 85, 100, 112, 95, 57, 0]
    );
    assert_eq!(u8_from_str_nul_utf8_unchecked(""), [0]);
    assert_eq!(
        u8_from_str_nul_utf8_unchecked("\u{e9}"),
        [0xc3, 0xa9, 0]
    );
}

#[test]
fn nul_terminated_text_reads_back() {
    for text in ["", "a", "LoginUdp_9", "gr\u{fc}\u{df}e \u{1f600}"] {
        let bytes = u8_from_str_nul_utf8_unchecked(text);
        assert_eq!(str_from_u8_nul_utf8_checked(&bytes), text);
    }
}

#[test]
fn prefixed_string() {
    let buffer = [9, 5, 0, 0, 0, 105, 116, 115, 109, 101, 7];
    assert_eq!(read_prefixed_string_le(&buffer, 1, 5), "itsme");
    assert_eq!(read_prefixed_string_le(&buffer, 1, 6), "itsme\u{7}");
    assert_eq!(read_prefixed_string_le(&buffer, 1, 0), "");
    assert_eq!(read_prefixed_string_le(&buffer, 7, 0), "");
}

#[test]
fn prefixed_string_out_of_bounds() {
    let failure = "Fail to read prefixed string little endiant";
    let buffer = [9, 5, 0, 0, 0, 105, 116, 115, 109, 101, 7];
    assert_eq!(read_prefixed_string_le(&buffer, 1, 7), failure);
    assert_eq!(read_prefixed_string_le(&buffer, 8, 0), failure);
    assert_eq!(read_prefixed_string_le(&buffer, 12, 0), failure);
    assert_eq!(read_prefixed_string_le(&buffer, usize::MAX, 1), failure);
    assert_eq!(read_prefixed_string_le(&buffer, 0, u32::MAX), failure);
    assert_eq!(read_prefixed_string_le(&[], 0, 0), failure);
}

#[test]
fn prefixed_string_that_is_not_utf8() {
    let buffer = [2, 0, 0, 0, 0xff, 0xfe];
    assert_eq!(read_prefixed_string_le(&buffer, 0, 2), "");
}
