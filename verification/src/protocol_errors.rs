//! What a codec reports when a frame cannot be decoded, or a record cannot be
//! encoded.

use crate::byte_cursor::ByteCursor;
use vstd::prelude::*;
use vstd::slice::slice_to_vec;
use vstd::string::StringExecFns;
use vstd::utf8::encode_utf8;

verus! {

/// The kinds of failure that are reported in-band, as a frame of their own.
#[derive(Debug, Clone, Copy, PartialEq, Eq, Structural)]
pub enum ErrorType {
    Deserializing,
}

impl ErrorType {
    /// The opcode byte that marks a frame as a report of this kind.
    pub open spec fn spec_code(self) -> u8 {
        0x99
    }

    /// The opcode byte that marks a frame as a report of this kind.
    #[verifier::when_used_as_spec(spec_code)]
    pub fn code(self) -> (c: u8)
        ensures
            c == self.spec_code(),
    {
        0x99
    }
}

/// Why a datagram was not decoded. Every kind carries the datagram itself.
#[derive(Debug, Clone, PartialEq, Eq)]
pub enum ProtocolError {
    /// The datagram is shorter than its opcode allows, or, for an opcode of
    /// fixed size, not of that size.
    Size { size: usize, raw: Vec<u8> },
    /// The checksum computed over the datagram (`expected_crc`) differs from
    /// the one it carries (`given_crc`).
    Crc { expected_crc: u16, given_crc: u16, raw: Vec<u8> },
    /// A sub-packet of a grouped datagram announces no bytes, or more than
    /// lie before `data_end`. `position` is where its bytes would start.
    Corruption { subpacket_length: u32, data_end: u64, position: u64, raw: Vec<u8> },
    /// A record handed in for encoding is not of the kind that was asked
    /// for. No decoder reports this.
    Deserializing { message: String },
}

/// The mathematical content of a `ProtocolError`.
pub enum ProtocolErrorView {
    Size { size: usize, raw: Seq<u8> },
    Crc { expected_crc: u16, given_crc: u16, raw: Seq<u8> },
    Corruption { subpacket_length: u32, data_end: u64, position: u64, raw: Seq<u8> },
    Deserializing { message: Seq<char> },
}

impl View for ProtocolError {
    type V = ProtocolErrorView;

    open spec fn view(&self) -> ProtocolErrorView {
        match self {
            ProtocolError::Size { size, raw } => ProtocolErrorView::Size { size: *size, raw: raw@ },
            ProtocolError::Crc { expected_crc, given_crc, raw } => ProtocolErrorView::Crc {
                expected_crc: *expected_crc,
                given_crc: *given_crc,
                raw: raw@,
            },
            ProtocolError::Corruption {
                subpacket_length,
                data_end,
                position,
                raw,
            } => ProtocolErrorView::Corruption {
                subpacket_length: *subpacket_length,
                data_end: *data_end,
                position: *position,
                raw: raw@,
            },
            ProtocolError::Deserializing { message } => ProtocolErrorView::Deserializing {
                message: message@,
            },
        }
    }
}

impl ProtocolError {
    /// A copy of the error.
    pub fn duplicate(&self) -> (copy: ProtocolError)
        ensures
            copy@ == self@,
    {
        match self {
            ProtocolError::Size { size, raw } => ProtocolError::Size {
                size: *size,
                raw: raw.clone(),
            },
            ProtocolError::Crc { expected_crc, given_crc, raw } => ProtocolError::Crc {
                expected_crc: *expected_crc,
                given_crc: *given_crc,
                raw: raw.clone(),
            },
            ProtocolError::Corruption {
                subpacket_length,
                data_end,
                position,
                raw,
            } => ProtocolError::Corruption {
                subpacket_length: *subpacket_length,
                data_end: *data_end,
                position: *position,
                raw: raw.clone(),
            },
            ProtocolError::Deserializing { message } => ProtocolError::Deserializing {
                message: message.clone(),
            },
        }
    }

    /// What is said of a record that is not of the kind asked for.
    pub open spec fn wrong_kind_message() -> Seq<char> {
        "record is not of the expected kind"@
    }

    /// The error for a record that is not of the kind asked for.
    pub open spec fn wrong_kind_error() -> ProtocolErrorView {
        ProtocolErrorView::Deserializing { message: ProtocolError::wrong_kind_message() }
    }

    /// The error for a record that is not of the kind asked for.
    pub fn wrong_kind() -> (error: ProtocolError)
        ensures
            error@ == ProtocolError::wrong_kind_error(),
    {
        ProtocolError::Deserializing { message: "record is not of the expected kind".to_owned() }
    }
}

/// The frame that reports a record which could not be encoded: a zero byte,
/// the code of `ErrorType::Deserializing`, then the bytes of the diagnostic.
pub open spec fn deserializing_error_frame(message: Seq<char>) -> Seq<u8> {
    seq![0u8, ErrorType::Deserializing.spec_code()] + encode_utf8(message)
}

/// The diagnostic that an error carries, where it is one of encoding.
pub fn deserializing_message(error: &ProtocolError) -> (message: &str)
    ensures
        error is Deserializing ==> message@ == error@->Deserializing_message,
        !(error is Deserializing) ==> message@ == Seq::<char>::empty(),
{
    match error {
        ProtocolError::Deserializing { message } => message.as_str(),
        _ => {
            proof {
                reveal_strlit("");
            }
            assert(""@ =~= Seq::<char>::empty());
            ""
        },
    }
}

/// The in-band report of a record that could not be encoded.
pub fn gen_deserializing_error_json(error: &str) -> (frame: Vec<u8>)
    ensures
        frame@ == deserializing_error_frame(error@),
{
    let mut frame: Vec<u8> = Vec::new();
    frame.push(0x00);
    frame.push(ErrorType::Deserializing.code());
    let mut text = slice_to_vec(error.as_bytes());
    frame.append(&mut text);
    assert(frame@ =~= deserializing_error_frame(error@));
    frame
}

/// The decimal digit `d`, as text.
pub open spec fn digit_text(d: int) -> Seq<char> {
    if d == 0 {
        "0"@
    } else if d == 1 {
        "1"@
    } else if d == 2 {
        "2"@
    } else if d == 3 {
        "3"@
    } else if d == 4 {
        "4"@
    } else if d == 5 {
        "5"@
    } else if d == 6 {
        "6"@
    } else if d == 7 {
        "7"@
    } else if d == 8 {
        "8"@
    } else {
        "9"@
    }
}

/// The number `n` in decimal, without leading zeros.
pub open spec fn decimal_text(n: nat) -> Seq<char>
    decreases n,
{
    if n < 10 {
        digit_text(n as int)
    } else {
        decimal_text(n / 10) + digit_text((n % 10) as int)
    }
}

/// The bytes `raw` in decimal, with a comma and a space between every two.
pub open spec fn byte_items_text(raw: Seq<u8>) -> Seq<char>
    decreases raw.len(),
{
    if raw.len() == 0 {
        Seq::empty()
    } else if raw.len() == 1 {
        decimal_text(raw[0] as nat)
    } else {
        byte_items_text(raw.drop_last()) + ", "@ + decimal_text(raw.last() as nat)
    }
}

/// The bytes `raw` as a JSON array of numbers.
pub open spec fn byte_list_text(raw: Seq<u8>) -> Seq<char> {
    "["@ + byte_items_text(raw) + "]"@
}

/// The JSON object that reports a datagram of the wrong size.
pub open spec fn size_error_json(size: nat, raw: Seq<u8>) -> Seq<char> {
    "{\"name\":\"Error\",\"error\":\"size\",\"size\":"@ + decimal_text(size) + ",\"raw\":"@
        + byte_list_text(raw) + "}"@
}

/// The JSON object that reports a datagram with a wrong checksum.
pub open spec fn crc_error_json(raw: Seq<u8>, expected_crc: u16, given_crc: u16) -> Seq<char> {
    "{\"name\":\"Error\",\"error\":\"crc\",\"expected_crc\":"@ + decimal_text(
        expected_crc as nat,
    ) + ",\"given_crc\":"@ + decimal_text(given_crc as nat) + ",\"raw\":"@ + byte_list_text(raw)
        + "}"@
}

/// The JSON object that reports a grouped datagram with a wrong sub-packet
/// length.
pub open spec fn corruption_error_json(
    raw: Seq<u8>,
    subpacket_length: u32,
    data_end: u64,
    position: u64,
) -> Seq<char> {
    "{\"name\":\"Error\",\"error\":\"corruption\",\"subpacket_length\":"@ + decimal_text(
        subpacket_length as nat,
    ) + ",\"data_end\":"@ + decimal_text(data_end as nat) + ",\"position\":"@ + decimal_text(
        position as nat,
    ) + ",\"raw\":"@ + byte_list_text(raw) + "}"@
}

/// Appends the decimal digit `d`.
pub(crate) fn push_digit(text: &mut String, d: u64)
    requires
        d < 10,
    ensures
        final(text)@ == old(text)@ + digit_text(d as int),
{
    let digit = match d {
        0 => "0",
        1 => "1",
        2 => "2",
        3 => "3",
        4 => "4",
        5 => "5",
        6 => "6",
        7 => "7",
        8 => "8",
        _ => "9",
    };
    text.append(digit);
}

/// Appends `n` in decimal.
pub(crate) fn push_decimal(text: &mut String, n: u64)
    ensures
        final(text)@ == old(text)@ + decimal_text(n as nat),
    decreases n,
{
    if n < 10 {
        push_digit(text, n);
    } else {
        push_decimal(text, n / 10);
        push_digit(text, n % 10);
        assert(text@ =~= old(text)@ + decimal_text(n as nat));
    }
}

/// Appends the bytes `raw` as a JSON array of numbers.
pub(crate) fn push_byte_list(text: &mut String, raw: &Vec<u8>)
    ensures
        final(text)@ == old(text)@ + byte_list_text(raw@),
{
    text.append("[");
    let ghost start = text@;
    let mut i: usize = 0;
    assert(raw@.take(0) =~= Seq::<u8>::empty());
    assert(text@ =~= start + byte_items_text(raw@.take(0)));
    while i < raw.len()
        invariant
            i <= raw@.len(),
            text@ == start + byte_items_text(raw@.take(i as int)),
        decreases raw@.len() - i,
    {
        let ghost items = byte_items_text(raw@.take(i as int));
        if i > 0 {
            text.append(", ");
        }
        push_decimal(text, raw[i] as u64);
        proof {
            let now = raw@.take(i + 1);
            assert(now.drop_last() =~= raw@.take(i as int));
            assert(now.last() == raw@[i as int]);
            if i == 0 {
                assert(items =~= Seq::<char>::empty());
                assert(text@ =~= start + byte_items_text(now));
            } else {
                assert(text@ =~= start + byte_items_text(now));
            }
        }
        i = i + 1;
    }
    assert(raw@.take(i as int) =~= raw@);
    text.append("]");
    assert(text@ =~= old(text)@ + byte_list_text(raw@));
}

/// The JSON object that reports a datagram of `size` bytes, `raw`, as one
/// of the wrong size.
fn size_error_text(size: usize, raw: &Vec<u8>) -> (json: String)
    ensures
        json@ == size_error_json(size as nat, raw@),
{
    let mut json = String::new();
    json.append("{\"name\":\"Error\",\"error\":\"size\",\"size\":");
    push_decimal(&mut json, size as u64);
    json.append(",\"raw\":");
    push_byte_list(&mut json, raw);
    json.append("}");
    assert(json@ =~= size_error_json(size as nat, raw@));
    json
}

/// The JSON object that reports the datagram under `rdr` as one of the
/// wrong size.
pub fn gen_size_error_json(rdr: ByteCursor) -> (json: String)
    ensures
        json@ == size_error_json(rdr.data@.len(), rdr.data@),
{
    let raw = rdr.get_ref();
    size_error_text(raw.len(), raw)
}

/// The JSON object that reports the datagram `vec` as one whose checksum,
/// `given_crc`, is not `expected_crc`.
pub fn gen_crc_error_json(vec: &Vec<u8>, expected_crc: u16, given_crc: u16) -> (json: String)
    ensures
        json@ == crc_error_json(vec@, expected_crc, given_crc),
{
    let mut json = String::new();
    json.append("{\"name\":\"Error\",\"error\":\"crc\",\"expected_crc\":");
    push_decimal(&mut json, expected_crc as u64);
    json.append(",\"given_crc\":");
    push_decimal(&mut json, given_crc as u64);
    json.append(",\"raw\":");
    push_byte_list(&mut json, vec);
    json.append("}");
    assert(json@ =~= crc_error_json(vec@, expected_crc, given_crc));
    json
}

/// The JSON object that reports the grouped datagram under `rdr` as one with
/// a sub-packet of `subpacket_length` bytes that does not end before
/// `data_end`. The cursor stands where the sub-packet would start.
pub fn gen_corruption_error_json(rdr: ByteCursor, subpacket_length: u32, data_end: u64) -> (json:
    String)
    ensures
        json@ == corruption_error_json(rdr.data@, subpacket_length, data_end, rdr.pos),
{
    let raw = rdr.get_ref();
    let mut json = String::new();
    json.append("{\"name\":\"Error\",\"error\":\"corruption\",\"subpacket_length\":");
    push_decimal(&mut json, subpacket_length as u64);
    json.append(",\"data_end\":");
    push_decimal(&mut json, data_end);
    json.append(",\"position\":");
    push_decimal(&mut json, rdr.position());
    json.append(",\"raw\":");
    push_byte_list(&mut json, raw);
    json.append("}");
    assert(json@ =~= corruption_error_json(rdr.data@, subpacket_length, data_end, rdr.pos));
    json
}

/// The JSON object that reports `error`. A record that could not be
/// encoded is reported by its diagnostic alone.
pub open spec fn error_json(error: ProtocolErrorView) -> Seq<char> {
    match error {
        ProtocolErrorView::Size { size, raw } => size_error_json(size as nat, raw),
        ProtocolErrorView::Crc { expected_crc, given_crc, raw } => crc_error_json(
            raw,
            expected_crc,
            given_crc,
        ),
        ProtocolErrorView::Corruption {
            subpacket_length,
            data_end,
            position,
            raw,
        } => corruption_error_json(raw, subpacket_length, data_end, position),
        ProtocolErrorView::Deserializing { message } => message,
    }
}

impl ProtocolError {
    /// The JSON object that reports this error.
    pub fn to_json(&self) -> (json: String)
        ensures
            json@ == error_json(self@),
    {
        match self {
            ProtocolError::Size { size, raw } => size_error_text(*size, raw),
            ProtocolError::Crc { expected_crc, given_crc, raw } => gen_crc_error_json(
                raw,
                *expected_crc,
                *given_crc,
            ),
            ProtocolError::Corruption { subpacket_length, data_end, position, raw } => {
                let mut rdr = ByteCursor::new(raw);
                rdr.set_position(*position);
                gen_corruption_error_json(rdr, *subpacket_length, *data_end)
            },
            ProtocolError::Deserializing { message } => message.clone(),
        }
    }
}

} // verus!
