use h1emu_core::crc::{append_crc, append_crc_legacy, crc32, crc32_legacy};

#[test]
fn crc32_test() {
    let mut data: Vec<u8> = [0, 21, 0, 0, 2].to_vec();
    crc32(&&mut data, 0);
    assert_eq!(crc32(&&mut data, 0), 1874907695)
}

#[test]
fn append_crc_test() {
    let mut data: Vec<u8> = [
        0, 9, 0, 0, 0, 169, 183, 185, 67, 241, 64, 164, 5, 143, 19, 35, 87, 21, 163, 205, 26, 83,
        24, 212,
    ]
    .to_vec();
    append_crc(&mut data, 0);
    assert_eq!(
        data,
        [
            0, 9, 0, 0, 0, 169, 183, 185, 67, 241, 64, 164, 5, 143, 19, 35, 87, 21, 163, 205, 26,
            83, 24, 212, 220, 81
        ]
    )
}

#[test]
fn crc32_legacy_test() {
    let data: [u8; 5] = [0, 21, 0, 0, 2];
    assert_eq!(crc32_legacy(&data, 0), 1874907695)
}

#[test]
fn append_crc_legacy_test() {
    let data: [u8; 24] = [
        0, 9, 0, 0, 0, 169, 183, 185, 67, 241, 64, 164, 5, 143, 19, 35, 87, 21, 163, 205, 26, 83,
        24, 212,
    ];
    assert_eq!(
        append_crc_legacy(&data, 0),
        [
            0, 9, 0, 0, 0, 169, 183, 185, 67, 241, 64, 164, 5, 143, 19, 35, 87, 21, 163, 205, 26,
            83, 24, 212, 220, 81
        ]
    )
}
