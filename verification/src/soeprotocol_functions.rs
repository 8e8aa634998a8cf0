//! The rules that SOE datagrams share: minimum sizes, where the payload
//! ends, the length prefix of a sub-packet, the names of disconnect reasons.

use crate::byte_cursor::{
    be_u16_at, be_u32_at, pos_after, put_u16_be, put_u32_be, u16_be_bytes, u32_be_bytes, u8_at,
    ByteCursor,
};
use crate::soeprotocol_packets_structs::DataPacket;
use vstd::prelude::*;
use vstd::slice::{slice_subrange, slice_to_vec};

verus! {

/// The shortest datagram of each kind, opcode included and checksum excluded.
#[derive(Debug, Clone, Copy, PartialEq, Eq, Structural)]
pub enum PacketsMinSize {
    SessionRequest,
    SessionReply,
    Disconnect,
    NetStatusPacket,
    MultiPacket,
    DataPacket,
    Ack,
}

impl PacketsMinSize {
    /// The size in bytes.
    pub open spec fn spec_size(self) -> usize {
        match self {
            PacketsMinSize::SessionRequest => 14,
            PacketsMinSize::SessionReply => 21,
            PacketsMinSize::Disconnect => 6,
            PacketsMinSize::NetStatusPacket => 42,
            PacketsMinSize::MultiPacket => 7,
            PacketsMinSize::DataPacket => 5,
            PacketsMinSize::Ack => 4,
        }
    }

    /// The size in bytes.
    #[verifier::when_used_as_spec(spec_size)]
    pub fn size(self) -> (n: usize)
        ensures
            n == self.spec_size(),
    {
        match self {
            PacketsMinSize::SessionRequest => 14,
            PacketsMinSize::SessionReply => 21,
            PacketsMinSize::Disconnect => 6,
            PacketsMinSize::NetStatusPacket => 42,
            PacketsMinSize::MultiPacket => 7,
            PacketsMinSize::DataPacket => 5,
            PacketsMinSize::Ack => 4,
        }
    }
}

/// Whether a datagram of `len` bytes is long enough for a kind whose minimum
/// is `min_size`: a checksum adds two bytes to the minimum.
pub open spec fn meets_min_size(len: int, min_size: int, use_crc: bool) -> bool {
    if use_crc {
        len >= min_size + 2
    } else {
        len >= min_size
    }
}

/// Whether the datagram under `rdr` is long enough for a kind whose minimum
/// is `min_size`.
pub fn check_min_size(rdr: &ByteCursor, min_size: usize, use_crc: bool) -> (enough: bool)
    ensures
        enough == meets_min_size(rdr.data@.len() as int, min_size as int, use_crc),
{
    let len = rdr.get_ref().len();
    if use_crc {
        len >= 2 && len - 2 >= min_size
    } else {
        len >= min_size
    }
}

/// The name of the disconnect reason `reason_id`.
pub open spec fn disconnect_reason_name(reason_id: u16) -> Seq<char> {
    if reason_id == 0 {
        "IcmpError"@
    } else if reason_id == 1 {
        "Timeout"@
    } else if reason_id == 2 {
        "None"@
    } else if reason_id == 3 {
        "OtherSideTerminated"@
    } else if reason_id == 4 {
        "ManagerDeleted"@
    } else if reason_id == 5 {
        "ConnectFail"@
    } else if reason_id == 6 {
        "Application"@
    } else if reason_id == 7 {
        "UnreachableConnection"@
    } else if reason_id == 8 {
        "UnacknowledgedTimeout"@
    } else if reason_id == 9 {
        "NewConnectionAttempt"@
    } else if reason_id == 10 {
        "ConnectionRefused"@
    } else if reason_id == 11 {
        "ConnectError"@
    } else if reason_id == 12 {
        "ConnectingToSelf"@
    } else if reason_id == 13 {
        "ReliableOverflow"@
    } else if reason_id == 14 {
        "ApplicationReleased"@
    } else if reason_id == 15 {
        "CorruptPacket"@
    } else if reason_id == 16 {
        "ProtocolMismatch"@
    } else {
        "unknown"@
    }
}

/// The name of the disconnect reason `reason_id`; `unknown` for a number
/// that names none.
pub fn disconnect_reason_to_string(reason_id: u16) -> (name: String)
    ensures
        name@ == disconnect_reason_name(reason_id),
{
    let name = match reason_id {
        0 => "IcmpError",
        1 => "Timeout",
        2 => "None",
        3 => "OtherSideTerminated",
        4 => "ManagerDeleted",
        5 => "ConnectFail",
        6 => "Application",
        7 => "UnreachableConnection",
        8 => "UnacknowledgedTimeout",
        9 => "NewConnectionAttempt",
        10 => "ConnectionRefused",
        11 => "ConnectError",
        12 => "ConnectingToSelf",
        13 => "ReliableOverflow",
        14 => "ApplicationReleased",
        15 => "CorruptPacket",
        16 => "ProtocolMismatch",
        _ => "unknown",
    };
    name.to_owned()
}

/// Where the payload of a datagram of `len` bytes ends: before the two bytes
/// of the checksum where it carries one.
pub open spec fn data_end_of(len: int, use_crc: bool) -> int {
    if use_crc {
        len - 2
    } else {
        len
    }
}

/// Where the payload of the datagram under `rdr` ends.
pub fn get_data_end(rdr: &ByteCursor, use_crc: bool) -> (end: u64)
    requires
        use_crc ==> rdr.data@.len() >= 2,
    ensures
        end == data_end_of(rdr.data@.len() as int, use_crc),
{
    let len = rdr.get_ref().len() as u64;
    if use_crc {
        len - 2
    } else {
        len
    }
}

/// The length prefix of a sub-packet of `n` bytes: one byte up to 255, two
/// big-endian bytes up to 65535, four above. A length beyond 32 bits keeps
/// its low 32 bits.
pub open spec fn length_prefix(n: usize) -> Seq<u8> {
    if n <= 0xFF {
        seq![n as u8]
    } else if n <= 0xFFFF {
        u16_be_bytes(n as u16)
    } else {
        u32_be_bytes(n as u32)
    }
}

/// Appends the length prefix of a sub-packet of `data_length` bytes.
pub fn write_data_length(wtr: &mut Vec<u8>, data_length: usize)
    ensures
        final(wtr)@ == old(wtr)@ + length_prefix(data_length),
{
    if data_length <= 0xFF {
        wtr.push(data_length as u8);
        assert(wtr@ =~= old(wtr)@ + length_prefix(data_length));
    } else if data_length <= 0xFFFF {
        put_u16_be(wtr, data_length as u16);
    } else {
        put_u32_be(wtr, #[verifier::truncate] (data_length as u32));
    }
}

/// How many bytes the length prefix at `pos` takes: one where the first
/// byte is below 255; else two where the second is below 255; else four.
pub open spec fn length_prefix_width(data: Seq<u8>, pos: int) -> int {
    if u8_at(data, pos) < 0xFF {
        1
    } else if u8_at(data, pos + 1) != 0xFF {
        2
    } else {
        4
    }
}

/// The sub-packet length that the prefix at `pos` announces: the big-endian
/// value of its bytes, the first included; zero where they are not all there.
pub open spec fn data_length_at(data: Seq<u8>, pos: int) -> u32 {
    let width = length_prefix_width(data, pos);
    if width == 1 {
        u8_at(data, pos) as u32
    } else if width == 2 {
        be_u16_at(data, pos) as u32
    } else {
        be_u32_at(data, pos)
    }
}

/// Reads the length prefix of a sub-packet and leaves the cursor behind it.
pub fn read_data_length(rdr: &mut ByteCursor) -> (data_length: u32)
    ensures
        data_length == data_length_at(old(rdr).data@, old(rdr).pos as int),
        final(rdr).data == old(rdr).data,
        final(rdr).pos == pos_after(
            old(rdr).data@,
            old(rdr).pos as int,
            length_prefix_width(old(rdr).data@, old(rdr).pos as int),
        ),
{
    let start = rdr.position();
    let first = rdr.read_u8();
    if first < 0xFF {
        return first as u32;
    }
    let second = rdr.read_u8();
    rdr.set_position(start);
    if second != 0xFF {
        rdr.read_u16_be() as u32
    } else {
        rdr.read_u32_be()
    }
}

/// The `sub_packet_data_length` bytes of the datagram under `rdr` that start
/// at `data_start_position`.
pub fn extract_subpacket_data(
    rdr: &ByteCursor,
    data_start_position: u64,
    sub_packet_data_length: u32,
) -> (sub_packet: Vec<u8>)
    requires
        data_start_position + sub_packet_data_length <= rdr.data@.len(),
    ensures
        sub_packet@ == rdr.data@.subrange(
            data_start_position as int,
            data_start_position + sub_packet_data_length,
        ),
{
    let raw = rdr.get_ref();
    assert(data_start_position + sub_packet_data_length <= raw.len());
    let start = data_start_position as usize;
    let end = start + sub_packet_data_length as usize;
    slice_to_vec(slice_subrange(raw.as_slice(), start, end))
}

/// Appends the sequence number of `data_packet` and its payload. The payload
/// moves into `wtr`: the packet is left with none.
pub fn write_packet_data(wtr: &mut Vec<u8>, data_packet: &mut DataPacket)
    ensures
        final(wtr)@ == old(wtr)@ + u16_be_bytes(old(data_packet).sequence) + old(data_packet).data@,
        final(data_packet).data@ == Seq::<u8>::empty(),
        final(data_packet).sequence == old(data_packet).sequence,
        final(data_packet).opcode == old(data_packet).opcode,
{
    put_u16_be(wtr, data_packet.sequence);
    wtr.append(&mut data_packet.data);
}

} // verus!
