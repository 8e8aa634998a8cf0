use h1emu_core::jenkins::joaat;

#[test]
fn jenkins_oaat_test() {
    assert_eq!(joaat("HAX"), 2813495259)
}

#[test]
fn jenkins_oaat_wikipedia_tests() {
    assert_eq!(
        joaat("The quick brown fox jumps over the lazy dog"),
        0x519e91f5
    );
    assert_eq!(joaat("a"), 0xca2e9442)
}

#[test]
fn jenkins_empty_string() {
    assert_eq!(joaat(""), 0)
}
