use h1emu_core::utils::{generate_random_guid, guid_from_bytes};

#[test]
fn generate_random_guid_test() {
    assert_ne!(generate_random_guid(), generate_random_guid())
}

#[test]
fn guid_is_sixteen_hex_digits() {
    let guid = generate_random_guid();
    assert_eq!(guid.len(), 16);
    assert!(guid
        .bytes()
        .all(|b| b.is_ascii_digit() || (b'a'..=b'f').contains(&b)));
}

#[test]
fn guid_from_given_bytes() {
    assert_eq!(
        guid_from_bytes([0x00, 0x01, 0x0f, 0x10, 0x9a, 0xa9, 0xfe, 0xff]),
        "00010f109aa9feff"
    );
}
