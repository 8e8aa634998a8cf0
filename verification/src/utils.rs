//! Identifiers for game objects.

use vstd::prelude::*;
use vstd::string::StringExecFns;

verus! {

/// The hexadecimal digit `d`, in lower case, as text.
pub open spec fn hex_digit_text(d: int) -> Seq<char> {
    if d == 0 {
        "0"@
    } else if d == 1 {
        "1"@
    } else if d == 2 {
        "2"@
    } else if d == 3 {
        "3"@
    } else if d == 4 {
        "4"@
    } else if d == 5 {
        "5"@
    } else if d == 6 {
        "6"@
    } else if d == 7 {
        "7"@
    } else if d == 8 {
        "8"@
    } else if d == 9 {
        "9"@
    } else if d == 10 {
        "a"@
    } else if d == 11 {
        "b"@
    } else if d == 12 {
        "c"@
    } else if d == 13 {
        "d"@
    } else if d == 14 {
        "e"@
    } else {
        "f"@
    }
}

/// The bytes `bytes` in hexadecimal, two digits each, the high one first.
pub open spec fn hex_text(bytes: Seq<u8>) -> Seq<char>
    decreases bytes.len(),
{
    if bytes.len() == 0 {
        Seq::empty()
    } else {
        hex_text(bytes.drop_last()) + hex_digit_text(bytes.last() as int / 16) + hex_digit_text(
            bytes.last() as int % 16,
        )
    }
}

/// Every byte gives two digits.
pub proof fn lemma_hex_text_len(bytes: Seq<u8>)
    ensures
        hex_text(bytes).len() == 2 * bytes.len(),
    decreases bytes.len(),
{
    reveal_strlit("0");
    reveal_strlit("1");
    reveal_strlit("2");
    reveal_strlit("3");
    reveal_strlit("4");
    reveal_strlit("5");
    reveal_strlit("6");
    reveal_strlit("7");
    reveal_strlit("8");
    reveal_strlit("9");
    reveal_strlit("a");
    reveal_strlit("b");
    reveal_strlit("c");
    reveal_strlit("d");
    reveal_strlit("e");
    reveal_strlit("f");
    if bytes.len() > 0 {
        lemma_hex_text_len(bytes.drop_last());
    }
}

/// Appends the hexadecimal digit `d`.
fn push_hex_digit(text: &mut String, d: u8)
    requires
        d < 16,
    ensures
        final(text)@ == old(text)@ + hex_digit_text(d as int),
{
    let digit = match d {
        0 => "0",
        1 => "1",
        2 => "2",
        3 => "3",
        4 => "4",
        5 => "5",
        6 => "6",
        7 => "7",
        8 => "8",
        9 => "9",
        10 => "a",
        11 => "b",
        12 => "c",
        13 => "d",
        14 => "e",
        _ => "f",
    };
    text.append(digit);
}

/// The identifier that the eight bytes `random` stand for: their sixteen
/// hexadecimal digits.
pub fn guid_from_bytes(random: [u8; 8]) -> (guid: String)
    ensures
        guid@ == hex_text(random@),
        guid@.len() == 16,
{
    let mut guid = String::new();
    let mut i: usize = 0;
    assert(random@.take(0) =~= Seq::<u8>::empty());
    assert(guid@ =~= hex_text(random@.take(0)));
    while i < 8
        invariant
            i <= 8,
            guid@ == hex_text(random@.take(i as int)),
        decreases 8 - i,
    {
        let byte = random[i];
        proof {
            let now = random@.take(i + 1);
            assert(now.drop_last() =~= random@.take(i as int));
            assert(now.last() == byte);
        }
        push_hex_digit(&mut guid, byte / 16);
        push_hex_digit(&mut guid, byte % 16);
        assert(guid@ =~= hex_text(random@.take(i + 1)));
        i = i + 1;
    }
    assert(random@.take(8) =~= random@);
    proof {
        lemma_hex_text_len(random@);
    }
    guid
}

/// `rand::random` for eight bytes: any eight bytes may come back. The call
/// takes no input; it fails only on a system without a source of randomness.
#[verifier::external_body]
fn random_bytes() -> (random: [u8; 8]) {
    rand::random()
}

/// A fresh identifier: the sixteen hexadecimal digits of eight random bytes.
pub fn generate_random_guid() -> (guid: String)
    ensures
        exists|random: Seq<u8>| random.len() == 8 && guid@ == hex_text(random),
        guid@.len() == 16,
{
    let random = random_bytes();
    let guid = guid_from_bytes(random);
    assert(random@.len() == 8 && guid@ == hex_text(random@));
    guid
}

} // verus!
