use h1emu_core::lz4::{lz4_comp, lz4_decomp};

#[test]
fn lz4_decomp_test() {
    assert_eq!(
        lz4_decomp(&[0x11, 2, 1, 0, 0]),
        Some(vec![2, 2, 2, 2, 2, 2])
    )
}

#[test]
fn lz4_comp_test() {
    assert_eq!(lz4_comp(&[2, 2, 2, 2, 2, 2]), &[0x11, 2, 1, 0, 0])
}

#[test]
fn lz4_decomp_rejects_a_block_that_ends_early() {
    assert_eq!(lz4_decomp(&[0x40, b'a', 1, 0]), None);
    assert_eq!(lz4_decomp(&[0x10, b'a', 2, 0]), None);
}

#[test]
fn lz4_decomp_gives_back_what_was_compressed() {
    let data = b"Hello world, what's up? Hello world, what's up?".to_vec();
    assert_eq!(lz4_decomp(&lz4_comp(&data)), Some(data));
}

#[test]
fn lz4_blocks_decode_to_what_they_were_made_from() {
    let mut inputs: Vec<Vec<u8>> = vec![
        vec![],
        vec![7],
        b"ahhd".to_vec(),
        vec![0; 13],
        vec![0xff; 1000],
        (0..=255).collect(),
        b"as6yhol.;jrew5tyuikbfewedfyjltre22459ba".to_vec(),
    ];
    let mut mixed = Vec::new();
    for i in 0..5000u32 {
        mixed.push((i % 7) as u8);
        mixed.push((i / 300) as u8);
    }
    inputs.push(mixed);
    for data in inputs {
        let block = lz4_comp(&data);
        assert!(!block.is_empty());
        assert_eq!(lz4_decomp(&block), Some(data));
    }
}
