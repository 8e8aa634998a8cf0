//! The SOE codec: datagrams to records and back.

use crate::byte_cursor::{
    be_u16_at, pos_after, put_u16_be, put_u32_be, put_u64_be, u16_be_bytes, ByteCursor,
};
use crate::crc::{append_crc, crc16, crc16_value};
use crate::lib_utils::u8_from_str_nul_utf8_unchecked;
use crate::protocol_errors::{
    deserializing_error_frame, deserializing_message, gen_deserializing_error_json, ProtocolError,
    ProtocolErrorView,
};
use crate::soeprotocol_functions::{
    check_min_size, data_end_of, data_length_at, extract_subpacket_data, get_data_end,
    length_prefix, length_prefix_width, meets_min_size, read_data_length, write_data_length,
    write_packet_data, PacketsMinSize,
};
use crate::soeprotocol_laws::{
    fails_crc_check, is_too_short, lemma_crc_mismatch_is_crc_error,
    lemma_parse_serialize_roundtrip, lemma_short_datagram_is_size_error, min_size_of,
    valid_record,
};
use crate::soeprotocol_packets_structs::{
    ack_at, ack_bytes, data_bytes, data_packet_at, disconnect_at, net_status_reply_at,
    net_status_reply_bytes, net_status_request_at, net_status_request_bytes, packet_views,
    session_reply_at, session_reply_bytes, session_request_at, session_request_bytes, AckPacket,
    DataPacket, DisconnectPacket, FatalErrorPacket, GroupedPackets, NetStatusReplyPacket,
    NetStatusRequestPacket, PingPacket, SessionReplyPacket, SessionRequestPacket, SoePacket,
    SoePacketParsed, SoePacketView, SubBasePackets, UnknownPacket,
};
use vstd::prelude::*;
use vstd::slice::slice_subrange;

verus! {

/// How the payload of data packets is encrypted, as a session reply names it.
#[derive(Debug, Clone, Copy, PartialEq, Eq, Structural)]
pub enum EncryptMethod {
    EncryptMethodNone,
    EncryptMethodUserSupplied,
    EncryptMethodUserSupplied2,
    EncryptMethodXorBuffer,
    EncryptMethodXor,
}

impl EncryptMethod {
    /// The number that stands for the method on the wire.
    pub open spec fn spec_value(self) -> u16 {
        match self {
            EncryptMethod::EncryptMethodNone => 0x0,
            EncryptMethod::EncryptMethodUserSupplied => 0x1,
            EncryptMethod::EncryptMethodUserSupplied2 => 0x2,
            EncryptMethod::EncryptMethodXorBuffer => 0x3,
            EncryptMethod::EncryptMethodXor => 0x4,
        }
    }

    /// The number that stands for the method on the wire.
    #[verifier::when_used_as_spec(spec_value)]
    pub fn value(self) -> (v: u16)
        ensures
            v == self.spec_value(),
    {
        match self {
            EncryptMethod::EncryptMethodNone => 0x0,
            EncryptMethod::EncryptMethodUserSupplied => 0x1,
            EncryptMethod::EncryptMethodUserSupplied2 => 0x2,
            EncryptMethod::EncryptMethodXorBuffer => 0x3,
            EncryptMethod::EncryptMethodXor => 0x4,
        }
    }
}

/// The kinds of SOE datagram.
#[derive(Debug, Clone, Copy, PartialEq, Eq, Structural)]
pub enum SoeOpcode {
    SessionRequest,
    SessionReply,
    MultiPacket,
    Disconnect,
    Ping,
    NetStatusRequest,
    NetStatusReply,
    Data,
    DataFragment,
    OutOfOrder,
    Ack,
    Group,
    Ordered,
    FatalError,
    Unknown,
}

impl SoeOpcode {
    /// The 16-bit number that a datagram of this kind begins with.
    pub open spec fn spec_value(self) -> u16 {
        match self {
            SoeOpcode::SessionRequest => 0x01,
            SoeOpcode::SessionReply => 0x02,
            SoeOpcode::MultiPacket => 0x03,
            SoeOpcode::Disconnect => 0x05,
            SoeOpcode::Ping => 0x06,
            SoeOpcode::NetStatusRequest => 0x07,
            SoeOpcode::NetStatusReply => 0x08,
            SoeOpcode::Data => 0x09,
            SoeOpcode::DataFragment => 0x0d,
            SoeOpcode::OutOfOrder => 0x11,
            SoeOpcode::Ack => 0x15,
            SoeOpcode::Group => 0x19,
            SoeOpcode::Ordered => 0x1B,
            SoeOpcode::FatalError => 0x1D,
            SoeOpcode::Unknown => 0x00,
        }
    }

    /// The 16-bit number that a datagram of this kind begins with.
    #[verifier::when_used_as_spec(spec_value)]
    pub fn value(self) -> (v: u16)
        ensures
            v == self.spec_value(),
    {
        match self {
            SoeOpcode::SessionRequest => 0x01,
            SoeOpcode::SessionReply => 0x02,
            SoeOpcode::MultiPacket => 0x03,
            SoeOpcode::Disconnect => 0x05,
            SoeOpcode::Ping => 0x06,
            SoeOpcode::NetStatusRequest => 0x07,
            SoeOpcode::NetStatusReply => 0x08,
            SoeOpcode::Data => 0x09,
            SoeOpcode::DataFragment => 0x0d,
            SoeOpcode::OutOfOrder => 0x11,
            SoeOpcode::Ack => 0x15,
            SoeOpcode::Group => 0x19,
            SoeOpcode::Ordered => 0x1B,
            SoeOpcode::FatalError => 0x1D,
            SoeOpcode::Unknown => 0x00,
        }
    }

    /// The kind that the number `value` stands for; `Unknown` for a number
    /// that stands for none.
    pub open spec fn spec_from_value(value: u16) -> SoeOpcode {
        if value == 0x01 {
            SoeOpcode::SessionRequest
        } else if value == 0x02 {
            SoeOpcode::SessionReply
        } else if value == 0x03 {
            SoeOpcode::MultiPacket
        } else if value == 0x05 {
            SoeOpcode::Disconnect
        } else if value == 0x06 {
            SoeOpcode::Ping
        } else if value == 0x07 {
            SoeOpcode::NetStatusRequest
        } else if value == 0x08 {
            SoeOpcode::NetStatusReply
        } else if value == 0x09 {
            SoeOpcode::Data
        } else if value == 0x0d {
            SoeOpcode::DataFragment
        } else if value == 0x11 {
            SoeOpcode::OutOfOrder
        } else if value == 0x15 {
            SoeOpcode::Ack
        } else if value == 0x19 {
            SoeOpcode::Group
        } else if value == 0x1B {
            SoeOpcode::Ordered
        } else if value == 0x1D {
            SoeOpcode::FatalError
        } else {
            SoeOpcode::Unknown
        }
    }

    /// The kind that the number `value` stands for.
    #[verifier::when_used_as_spec(spec_from_value)]
    pub fn from_value(value: u16) -> (opcode: SoeOpcode)
        ensures
            opcode == SoeOpcode::spec_from_value(value),
    {
        match value {
            0x01 => SoeOpcode::SessionRequest,
            0x02 => SoeOpcode::SessionReply,
            0x03 => SoeOpcode::MultiPacket,
            0x05 => SoeOpcode::Disconnect,
            0x06 => SoeOpcode::Ping,
            0x07 => SoeOpcode::NetStatusRequest,
            0x08 => SoeOpcode::NetStatusReply,
            0x09 => SoeOpcode::Data,
            0x0d => SoeOpcode::DataFragment,
            0x11 => SoeOpcode::OutOfOrder,
            0x15 => SoeOpcode::Ack,
            0x19 => SoeOpcode::Group,
            0x1B => SoeOpcode::Ordered,
            0x1D => SoeOpcode::FatalError,
            _ => SoeOpcode::Unknown,
        }
    }
}

/// The kind of the datagram `data`: what its first two bytes, read
/// big-endian, stand for. A datagram of fewer than two bytes has no kind.
pub open spec fn datagram_opcode(data: Seq<u8>) -> SoeOpcode {
    if data.len() >= 2 {
        SoeOpcode::spec_from_value(be_u16_at(data, 0))
    } else {
        SoeOpcode::Unknown
    }
}

/// The datagram that an error reports, where it reports one.
pub open spec fn error_raw(e: ProtocolErrorView) -> Seq<u8> {
    match e {
        ProtocolErrorView::Size { raw, .. } => raw,
        ProtocolErrorView::Crc { raw, .. } => raw,
        ProtocolErrorView::Corruption { raw, .. } => raw,
        ProtocolErrorView::Deserializing { .. } => Seq::empty(),
    }
}

/// The kind of datagram that the record `p` came as, or goes out as: the
/// kind that its opcode names where it holds one, the kind of the datagram
/// that it reports where it is an error.
pub open spec fn packet_opcode(p: SoePacketView) -> SoeOpcode {
    match p {
        SoePacketView::SessionRequest { .. } => SoeOpcode::SessionRequest,
        SoePacketView::SessionReply(_) => SoeOpcode::SessionReply,
        SoePacketView::NetStatusRequest(_) => SoeOpcode::NetStatusRequest,
        SoePacketView::NetStatusReply(_) => SoeOpcode::NetStatusReply,
        SoePacketView::Data { opcode, .. } => SoeOpcode::spec_from_value(opcode),
        SoePacketView::Ack(a) => SoeOpcode::spec_from_value(a.opcode),
        SoePacketView::Grouped { opcode, .. } => SoeOpcode::spec_from_value(opcode),
        SoePacketView::Ping => SoeOpcode::Ping,
        SoePacketView::FatalError { .. } => SoeOpcode::FatalError,
        SoePacketView::Disconnect { .. } => SoeOpcode::Disconnect,
        SoePacketView::Unknown { .. } => SoeOpcode::Unknown,
        SoePacketView::Error(e) => datagram_opcode(error_raw(e)),
    }
}

/// Whether datagrams of this kind end in a checksum when the session uses
/// one.
pub open spec fn carries_crc(opcode: SoeOpcode) -> bool {
    match opcode {
        SoeOpcode::MultiPacket | SoeOpcode::Group => true,
        SoeOpcode::Data | SoeOpcode::DataFragment | SoeOpcode::Ordered => true,
        SoeOpcode::OutOfOrder | SoeOpcode::Ack => true,
        _ => false,
    }
}

/// The report of a datagram of the wrong size.
pub open spec fn size_error(data: Seq<u8>) -> SoePacketView {
    SoePacketView::Error(ProtocolErrorView::Size { size: data.len() as usize, raw: data })
}

/// The checksum that the last two bytes of `data` hold.
pub open spec fn given_crc(data: Seq<u8>) -> u16 {
    be_u16_at(data, data.len() - 2)
}

/// The checksum of `data` without its last two bytes.
pub open spec fn expected_crc(data: Seq<u8>, crc_seed: u32) -> u16 {
    crc16_value(data.subrange(0, data.len() - 2), crc_seed)
}

/// The report of a datagram whose checksum is not the one it carries.
pub open spec fn crc_error(data: Seq<u8>, crc_seed: u32) -> SoePacketView {
    SoePacketView::Error(
        ProtocolErrorView::Crc {
            expected_crc: expected_crc(data, crc_seed),
            given_crc: given_crc(data),
            raw: data,
        },
    )
}

/// Whether `data`, which is long enough to hold a checksum, passes the
/// check: no checksum is in use, or the one it carries is its own.
pub open spec fn passes_crc(data: Seq<u8>, use_crc: bool, crc_seed: u32) -> bool {
    use_crc ==> given_crc(data) == expected_crc(data, crc_seed)
}

/// The record of a session request.
pub open spec fn session_request_of(data: Seq<u8>) -> SoePacketView {
    if data.len() >= PacketsMinSize::SessionRequest.spec_size() {
        session_request_at(data, 2)
    } else {
        size_error(data)
    }
}

/// The record of a session reply.
pub open spec fn session_reply_of(data: Seq<u8>) -> SoePacketView {
    if data.len() == PacketsMinSize::SessionReply.spec_size() {
        SoePacketView::SessionReply(session_reply_at(data, 2))
    } else {
        size_error(data)
    }
}

/// The record of a disconnect. One that is cut short names no reason.
pub open spec fn disconnect_of(data: Seq<u8>) -> SoePacketView {
    if data.len() < PacketsMinSize::Disconnect.spec_size() {
        SoePacketView::Disconnect { session_id: 0, reason: "unknown"@ }
    } else {
        disconnect_at(data, 2)
    }
}

/// The record of a client's statistics.
pub open spec fn net_status_request_of(data: Seq<u8>) -> SoePacketView {
    if data.len() == PacketsMinSize::NetStatusPacket.spec_size() {
        SoePacketView::NetStatusRequest(net_status_request_at(data, 2))
    } else {
        size_error(data)
    }
}

/// The record of a server's statistics.
pub open spec fn net_status_reply_of(data: Seq<u8>) -> SoePacketView {
    if data.len() == PacketsMinSize::NetStatusPacket.spec_size() {
        SoePacketView::NetStatusReply(net_status_reply_at(data, 2))
    } else {
        size_error(data)
    }
}

/// The record of a sequenced payload that came under `opcode`.
pub open spec fn sequenced_of(data: Seq<u8>, opcode: u16, use_crc: bool, crc_seed: u32)
    -> SoePacketView {
    if !meets_min_size(
        data.len() as int,
        PacketsMinSize::DataPacket.spec_size() as int,
        use_crc,
    ) {
        size_error(data)
    } else if !passes_crc(data, use_crc, crc_seed) {
        crc_error(data, crc_seed)
    } else {
        data_packet_at(data, 2, opcode, use_crc)
    }
}

/// The record of an acknowledgement that came under `opcode`.
pub open spec fn ack_of(data: Seq<u8>, opcode: u16, use_crc: bool, crc_seed: u32)
    -> SoePacketView {
    if !meets_min_size(data.len() as int, PacketsMinSize::Ack.spec_size() as int, use_crc) {
        size_error(data)
    } else if !passes_crc(data, use_crc, crc_seed) {
        crc_error(data, crc_seed)
    } else {
        SoePacketView::Ack(ack_at(data, 2, opcode))
    }
}

/// The report of a sub-packet whose length prefix, read at `pos`, announces
/// no bytes or more than lie before `end`.
pub open spec fn corruption_error(data: Seq<u8>, pos: int, end: int) -> ProtocolErrorView {
    ProtocolErrorView::Corruption {
        subpacket_length: data_length_at(data, pos),
        data_end: end as u64,
        position: pos_after(data, pos, length_prefix_width(data, pos)) as u64,
        raw: data,
    }
}

/// The record of the datagram `data`, for a session that uses a checksum or
/// not, as `use_crc` says.
pub open spec fn soe_parse(data: Seq<u8>, use_crc: bool, crc_seed: u32) -> SoePacketView
    decreases data.len(), 2int, 0int,
{
    let opcode = datagram_opcode(data);
    match opcode {
        SoeOpcode::SessionRequest => session_request_of(data),
        SoeOpcode::SessionReply => session_reply_of(data),
        SoeOpcode::MultiPacket | SoeOpcode::Group => grouped_of(
            data,
            opcode.spec_value(),
            use_crc,
            crc_seed,
        ),
        SoeOpcode::Disconnect => disconnect_of(data),
        SoeOpcode::Ping => SoePacketView::Ping,
        SoeOpcode::NetStatusRequest => net_status_request_of(data),
        SoeOpcode::NetStatusReply => net_status_reply_of(data),
        SoeOpcode::Data | SoeOpcode::DataFragment | SoeOpcode::Ordered => sequenced_of(
            data,
            opcode.spec_value(),
            use_crc,
            crc_seed,
        ),
        SoeOpcode::OutOfOrder | SoeOpcode::Ack => ack_of(
            data,
            opcode.spec_value(),
            use_crc,
            crc_seed,
        ),
        SoeOpcode::FatalError => SoePacketView::FatalError { raw: data },
        SoeOpcode::Unknown => SoePacketView::Unknown { raw: data },
    }
}

/// The record of a grouped datagram that came under `opcode`: its
/// sub-packets, decoded as datagrams without a checksum.
pub open spec fn grouped_of(data: Seq<u8>, opcode: u16, use_crc: bool, crc_seed: u32)
    -> SoePacketView
    decreases data.len(), 1int, 0int,
{
    if !meets_min_size(
        data.len() as int,
        PacketsMinSize::MultiPacket.spec_size() as int,
        use_crc,
    ) {
        size_error(data)
    } else if !passes_crc(data, use_crc, crc_seed) {
        crc_error(data, crc_seed)
    } else {
        match soe_parse_sub_packets(data, 2, data_end_of(data.len() as int, use_crc), crc_seed) {
            Ok(sub_packets) => SoePacketView::Grouped { opcode, sub_packets },
            Err(e) => SoePacketView::Error(e),
        }
    }
}

/// The records of the sub-packets that `data` holds from `pos` to `end`, in
/// wire order: each is a length prefix and a datagram without a checksum.
/// The first prefix that announces no bytes, or more than lie before `end`,
/// makes the whole a corruption error. A sub-packet that does not decode
/// stands in the list as its error.
pub open spec fn soe_parse_sub_packets(data: Seq<u8>, pos: int, end: int, crc_seed: u32) -> Result<
    Seq<SoePacketView>,
    ProtocolErrorView,
>
    decreases data.len(), 0int, end - pos,
    when 2 <= pos <= end <= data.len()
{
    let length = data_length_at(data, pos) as int;
    let start = pos_after(data, pos, length_prefix_width(data, pos));
    if length == 0 || start + length > end {
        Err(corruption_error(data, pos, end))
    } else {
        let sub_packet = soe_parse(data.subrange(start, start + length), false, crc_seed);
        if start + length == end {
            Ok(seq![sub_packet])
        } else {
            match soe_parse_sub_packets(data, start + length, end, crc_seed) {
                Ok(rest) => Ok(seq![sub_packet] + rest),
                Err(e) => Err(e),
            }
        }
    }
}

/// The records `earlier` followed by those of `rest`, or the error of `rest`.
pub open spec fn after_earlier(
    earlier: Seq<SoePacketView>,
    rest: Result<Seq<SoePacketView>, ProtocolErrorView>,
) -> Result<Seq<SoePacketView>, ProtocolErrorView> {
    match rest {
        Ok(later) => Ok(earlier + later),
        Err(e) => Err(e),
    }
}

/// `bytes`, followed by the low sixteen bits of their checksum where the
/// session uses one.
pub open spec fn with_crc(bytes: Seq<u8>, use_crc: bool, crc_seed: u32) -> Seq<u8> {
    if use_crc {
        bytes + u16_be_bytes(crc16_value(bytes, crc_seed))
    } else {
        bytes
    }
}

/// The datagrams `subs` one after the other, each behind its length prefix.
pub open spec fn sub_packet_frames(subs: Seq<Seq<u8>>) -> Seq<u8>
    decreases subs.len(),
{
    if subs.len() == 0 {
        Seq::empty()
    } else {
        sub_packet_frames(subs.drop_last()) + length_prefix(subs.last().len() as usize)
            + subs.last()
    }
}

/// How many bytes the length prefix of a sub-packet of `n` bytes takes.
pub open spec fn length_prefix_len(n: usize) -> nat {
    if n <= 0xFF {
        1
    } else if n <= 0xFFFF {
        2
    } else {
        4
    }
}

/// The sum, over the datagrams `subs`, of the length of each and of its
/// length prefix.
pub open spec fn framed_len(subs: Seq<Seq<u8>>) -> nat
    decreases subs.len(),
{
    if subs.len() == 0 {
        0
    } else {
        framed_len(subs.drop_last()) + length_prefix_len(subs.last().len() as usize)
            + subs.last().len()
    }
}

/// The grouped datagram that carries `subs` under `opcode`, without a
/// checksum.
pub open spec fn group_bytes(opcode: u16, subs: Seq<Seq<u8>>) -> Seq<u8> {
    u16_be_bytes(opcode) + sub_packet_frames(subs)
}

/// The contents of the byte vectors of `packets`, in order.
pub open spec fn byte_views(packets: Seq<Vec<u8>>) -> Seq<Seq<u8>> {
    Seq::new(packets.len(), |i: int| packets[i]@)
}

/// The datagram of the record `p`, for a session that uses a checksum or
/// not. The kinds that are sent without a checksum never get one; the kinds
/// without a datagram of their own give none.
pub open spec fn soe_serialize(p: SoePacketView, use_crc: bool, crc_seed: u32) -> Seq<u8>
    decreases p,
{
    match p {
        SoePacketView::SessionRequest {
            session_id,
            protocol_version,
            udp_length,
            protocol,
        } => session_request_bytes(protocol_version, session_id, udp_length, protocol),
        SoePacketView::SessionReply(r) => session_reply_bytes(r),
        SoePacketView::NetStatusRequest(r) => net_status_request_bytes(r),
        SoePacketView::NetStatusReply(r) => net_status_reply_bytes(r),
        SoePacketView::Data { opcode, sequence, data } => with_crc(
            data_bytes(opcode, sequence, data),
            use_crc,
            crc_seed,
        ),
        SoePacketView::Ack(a) => with_crc(ack_bytes(a.opcode, a.sequence), use_crc, crc_seed),
        SoePacketView::Grouped { opcode, sub_packets } => with_crc(
            group_bytes(opcode, soe_serialize_all(sub_packets, crc_seed)),
            use_crc,
            crc_seed,
        ),
        SoePacketView::Ping => u16_be_bytes(0x06),
        SoePacketView::Disconnect { .. } => u16_be_bytes(0x05),
        SoePacketView::FatalError { .. } => Seq::empty(),
        SoePacketView::Unknown { .. } => Seq::empty(),
        SoePacketView::Error(_) => Seq::empty(),
    }
}

/// The datagrams of the records `subs` as a group carries them: without a
/// checksum.
pub open spec fn soe_serialize_all(subs: Seq<SoePacketView>, crc_seed: u32) -> Seq<Seq<u8>>
    decreases subs,
{
    if subs.len() == 0 {
        Seq::empty()
    } else {
        soe_serialize_all(subs.drop_last(), crc_seed).push(
            soe_serialize(subs.last(), false, crc_seed),
        )
    }
}

/// The length of framed sub-packets is the sum of their lengths and of the
/// lengths of their prefixes.
pub proof fn lemma_sub_packet_frames_len(subs: Seq<Seq<u8>>)
    ensures
        sub_packet_frames(subs).len() == framed_len(subs),
    decreases subs.len(),
{
    if subs.len() > 0 {
        lemma_sub_packet_frames_len(subs.drop_last());
    }
}

/// The in-band report of a record that is not of the kind asked for.
pub open spec fn wrong_kind_frame() -> Seq<u8> {
    deserializing_error_frame(ProtocolError::wrong_kind_message())
}

/// The statistics that stand in for a record that is no server statistics.
pub open spec fn empty_net_status_reply() -> NetStatusReplyPacket {
    NetStatusReplyPacket {
        client_tick_count: 0,
        server_tick_count: 0,
        client_packet_sent: 0,
        client_packet_received: 0,
        server_packet_sent: 0,
        server_packet_received: 0,
        unknown_field: 0,
    }
}

/// The datagram that goes out for the record `p` under `opcode`. The opcode
/// decides the kind: a sequenced payload, an acknowledgement or a group goes
/// out under `opcode`, whatever opcode the record names. A record of another
/// kind than the opcode gives the in-band report of that, but for server
/// statistics, where empty statistics go out. A disconnect and a ping go out
/// as their opcode alone, a fatal error and an unknown kind as nothing.
pub open spec fn soe_pack(opcode: SoeOpcode, p: SoePacketView, use_crc: bool, crc_seed: u32)
    -> Seq<u8> {
    match opcode {
        SoeOpcode::SessionRequest => if p is SessionRequest {
            soe_serialize(p, use_crc, crc_seed)
        } else {
            wrong_kind_frame()
        },
        SoeOpcode::SessionReply => if p is SessionReply {
            soe_serialize(p, use_crc, crc_seed)
        } else {
            wrong_kind_frame()
        },
        SoeOpcode::MultiPacket | SoeOpcode::Group => if p is Grouped {
            soe_serialize(
                SoePacketView::Grouped {
                    opcode: opcode.spec_value(),
                    sub_packets: p->Grouped_sub_packets,
                },
                use_crc,
                crc_seed,
            )
        } else {
            wrong_kind_frame()
        },
        SoeOpcode::Disconnect => u16_be_bytes(0x05),
        SoeOpcode::Ping => u16_be_bytes(0x06),
        SoeOpcode::NetStatusRequest => if p is NetStatusRequest {
            soe_serialize(p, use_crc, crc_seed)
        } else {
            wrong_kind_frame()
        },
        SoeOpcode::NetStatusReply => if p is NetStatusReply {
            soe_serialize(p, use_crc, crc_seed)
        } else {
            net_status_reply_bytes(empty_net_status_reply())
        },
        SoeOpcode::Data | SoeOpcode::DataFragment | SoeOpcode::Ordered => if p is Data {
            with_crc(
                data_bytes(opcode.spec_value(), p->Data_sequence, p->Data_data),
                use_crc,
                crc_seed,
            )
        } else {
            wrong_kind_frame()
        },
        SoeOpcode::OutOfOrder | SoeOpcode::Ack => if p is Ack {
            with_crc(ack_bytes(opcode.spec_value(), p->Ack_0.sequence), use_crc, crc_seed)
        } else {
            wrong_kind_frame()
        },
        SoeOpcode::FatalError => Seq::empty(),
        SoeOpcode::Unknown => Seq::empty(),
    }
}

/// A decoded datagram is of the kind that its first two bytes name.
pub proof fn lemma_parsed_opcode(data: Seq<u8>, use_crc: bool, crc_seed: u32)
    ensures
        packet_opcode(soe_parse(data, use_crc, crc_seed)) == datagram_opcode(data),
{
    let opcode = datagram_opcode(data);
    if opcode == SoeOpcode::MultiPacket || opcode == SoeOpcode::Group {
        let end = data_end_of(data.len() as int, use_crc);
        if meets_min_size(data.len() as int, 7, use_crc) && passes_crc(data, use_crc, crc_seed) {
            lemma_sub_packets_error(data, 2, end, crc_seed);
        }
    }
}

/// The error of a list of sub-packets reports the datagram that holds them.
pub proof fn lemma_sub_packets_error(data: Seq<u8>, pos: int, end: int, crc_seed: u32)
    requires
        2 <= pos <= end <= data.len(),
    ensures
        soe_parse_sub_packets(data, pos, end, crc_seed) is Err ==> error_raw(
            soe_parse_sub_packets(data, pos, end, crc_seed)->Err_0,
        ) == data,
    decreases end - pos,
{
    let length = data_length_at(data, pos) as int;
    let start = pos_after(data, pos, length_prefix_width(data, pos));
    if length != 0 && start + length < end {
        lemma_sub_packets_error(data, start + length, end, crc_seed);
    }
}

/// A codec for the datagrams of one session: whether they end in a checksum,
/// and the seed of that checksum.
#[derive(Debug, Clone, Copy, PartialEq, Eq, Structural)]
pub struct Soeprotocol {
    pub use_crc: bool,
    pub crc_seed: u32,
}

impl Soeprotocol {
    /// A codec for a session with the given checksum settings.
    pub fn initialize(use_crc: bool, crc_seed: u32) -> (codec: Soeprotocol)
        ensures
            codec == (Soeprotocol { use_crc, crc_seed }),
    {
        Soeprotocol { use_crc, crc_seed }
    }

    /// The seed of the checksum.
    pub fn get_crc_seed(&self) -> (seed: u32)
        ensures
            seed == self.crc_seed,
    {
        self.crc_seed
    }

    /// Takes `crc_seed` as the seed of the checksum from now on.
    pub fn set_crc_seed(&mut self, crc_seed: u32)
        ensures
            *final(self) == (Soeprotocol { use_crc: old(self).use_crc, crc_seed }),
    {
        self.crc_seed = crc_seed;
    }

    /// Whether datagrams end in a checksum.
    pub fn is_using_crc(&mut self) -> (using: bool)
        ensures
            using == old(self).use_crc,
            *final(self) == *old(self),
    {
        self.use_crc
    }

    /// Datagrams end without a checksum from now on.
    pub fn disable_crc(&mut self)
        ensures
            *final(self) == (Soeprotocol { use_crc: false, crc_seed: old(self).crc_seed }),
    {
        self.use_crc = false;
    }

    /// Datagrams end in a checksum from now on.
    pub fn enable_crc(&mut self)
        ensures
            *final(self) == (Soeprotocol { use_crc: true, crc_seed: old(self).crc_seed }),
    {
        self.use_crc = true;
    }

    /// Reads the opcode at the cursor's position.
    pub fn get_opcode(&mut self, rdr: &mut ByteCursor) -> (opcode: SoeOpcode)
        ensures
            opcode == SoeOpcode::spec_from_value(be_u16_at(old(rdr).data@, old(rdr).pos as int)),
            final(rdr).data == old(rdr).data,
            final(rdr).pos == pos_after(old(rdr).data@, old(rdr).pos as int, 2),
            *final(self) == *old(self),
    {
        SoeOpcode::from_value(rdr.read_u16_be())
    }

    /// The report of a datagram of the wrong size.
    fn size_error(rdr: &ByteCursor) -> (packet: SoePacket)
        ensures
            packet@ == size_error(rdr.data@),
    {
        let raw = rdr.get_ref();
        SoePacket::Error(ProtocolError::Size { size: raw.len(), raw: raw.clone() })
    }

    /// Compares the checksum that the datagram carries with its own.
    fn check_crc(&self, rdr: &ByteCursor) -> (error: Option<SoePacket>)
        requires
            rdr.data@.len() >= 2,
        ensures
            error is None <==> given_crc(rdr.data@) == expected_crc(rdr.data@, self.crc_seed),
            error is Some ==> error->0@ == crc_error(rdr.data@, self.crc_seed),
    {
        let raw = rdr.get_ref();
        let data_end = get_data_end(rdr, true);
        let mut at = ByteCursor::new(raw);
        at.set_position(data_end);
        let given = at.read_u16_be();
        assert(data_end + 2 == raw.len());
        let expected = crc16(slice_subrange(raw.as_slice(), 0, data_end as usize), self.crc_seed);
        if given == expected {
            None
        } else {
            Some(
                SoePacket::Error(
                    ProtocolError::Crc {
                        expected_crc: expected,
                        given_crc: given,
                        raw: raw.clone(),
                    },
                ),
            )
        }
    }

    /// Whether a datagram of `size` bytes is long enough for the kind
    /// `opcode`. Any size is enough for a kind without a minimum.
    pub fn check_min_size(&mut self, opcode: SoeOpcode, size: usize) -> (enough: bool)
        ensures
            enough == (min_size_of(opcode, old(self).use_crc) is Some ==> size >= min_size_of(
                opcode,
                old(self).use_crc,
            )->0),
            *final(self) == *old(self),
    {
        let crc: usize = if self.use_crc {
            2
        } else {
            0
        };
        let min_size: usize = match opcode {
            SoeOpcode::SessionRequest => PacketsMinSize::SessionRequest.size(),
            SoeOpcode::SessionReply => PacketsMinSize::SessionReply.size(),
            SoeOpcode::NetStatusRequest => PacketsMinSize::NetStatusPacket.size(),
            SoeOpcode::NetStatusReply => PacketsMinSize::NetStatusPacket.size(),
            SoeOpcode::MultiPacket => PacketsMinSize::MultiPacket.size() + crc,
            SoeOpcode::Group => PacketsMinSize::MultiPacket.size() + crc,
            SoeOpcode::Data => PacketsMinSize::DataPacket.size() + crc,
            SoeOpcode::DataFragment => PacketsMinSize::DataPacket.size() + crc,
            SoeOpcode::Ordered => PacketsMinSize::DataPacket.size() + crc,
            SoeOpcode::OutOfOrder => PacketsMinSize::Ack.size() + crc,
            SoeOpcode::Ack => PacketsMinSize::Ack.size() + crc,
            _ => 0,
        };
        size >= min_size
    }

    /// Decodes a session request, whose datagram never ends in a checksum.
    fn parse_session_request(&mut self, rdr: ByteCursor) -> (packet: SoePacket)
        requires
            rdr.pos == 2,
        ensures
            packet@ == session_request_of(rdr.data@),
            *final(self) == *old(self),
    {
        if !check_min_size(&rdr, PacketsMinSize::SessionRequest.size(), false) {
            return Self::size_error(&rdr);
        }
        SoePacket::SessionRequestPacket(SessionRequestPacket::from(rdr))
    }

    /// Decodes a session reply, whose datagram has one size only.
    fn parse_session_reply(&mut self, rdr: ByteCursor) -> (packet: SoePacket)
        requires
            rdr.pos == 2,
        ensures
            packet@ == session_reply_of(rdr.data@),
            *final(self) == *old(self),
    {
        if rdr.get_ref().len() != PacketsMinSize::SessionReply.size() {
            return Self::size_error(&rdr);
        }
        SoePacket::SessionReplyPacket(SessionReplyPacket::from(rdr))
    }

    /// Decodes a disconnect. One that is cut short names no reason.
    fn parse_disconnect(&mut self, rdr: ByteCursor) -> (packet: SoePacket)
        requires
            rdr.pos == 2,
        ensures
            packet@ == disconnect_of(rdr.data@),
            *final(self) == *old(self),
    {
        if rdr.get_ref().len() < PacketsMinSize::Disconnect.size() {
            return SoePacket::DisconnectPacket(DisconnectPacket::new(0, "unknown".to_owned()));
        }
        SoePacket::DisconnectPacket(DisconnectPacket::from(rdr))
    }

    /// Decodes a client's statistics, whose datagram has one size only.
    fn parse_net_status_request(&mut self, rdr: ByteCursor) -> (packet: SoePacket)
        requires
            rdr.pos == 2,
        ensures
            packet@ == net_status_request_of(rdr.data@),
            *final(self) == *old(self),
    {
        if rdr.get_ref().len() != PacketsMinSize::NetStatusPacket.size() {
            return Self::size_error(&rdr);
        }
        SoePacket::NetStatusRequestPacket(NetStatusRequestPacket::from(rdr))
    }

    /// Decodes a server's statistics, whose datagram has one size only.
    fn parse_net_status_reply(&mut self, rdr: ByteCursor) -> (packet: SoePacket)
        requires
            rdr.pos == 2,
        ensures
            packet@ == net_status_reply_of(rdr.data@),
            *final(self) == *old(self),
    {
        if rdr.get_ref().len() != PacketsMinSize::NetStatusPacket.size() {
            return Self::size_error(&rdr);
        }
        SoePacket::NetStatusReplyPacket(NetStatusReplyPacket::from(rdr))
    }

    /// Decodes a sequenced payload that came under `opcode`.
    fn parse_data(&mut self, rdr: ByteCursor, opcode: u16) -> (packet: SoePacket)
        requires
            rdr.pos == 2,
        ensures
            packet@ == sequenced_of(rdr.data@, opcode, old(self).use_crc, old(self).crc_seed),
            *final(self) == *old(self),
    {
        if !check_min_size(&rdr, PacketsMinSize::DataPacket.size(), self.use_crc) {
            return Self::size_error(&rdr);
        }
        if self.use_crc {
            if let Some(error) = self.check_crc(&rdr) {
                return error;
            }
        }
        SoePacket::DataPacket(DataPacket::from(rdr, opcode, self.use_crc))
    }

    /// Decodes a sequenced payload that came as ordered data.
    fn parse_ordered(&mut self, rdr: ByteCursor) -> (packet: SoePacket)
        requires
            rdr.pos == 2,
        ensures
            packet@ == sequenced_of(
                rdr.data@,
                SoeOpcode::Ordered.spec_value(),
                old(self).use_crc,
                old(self).crc_seed,
            ),
            *final(self) == *old(self),
    {
        self.parse_data(rdr, SoeOpcode::Ordered.value())
    }

    /// Decodes an acknowledgement that came under `opcode`.
    fn parse_ack(&mut self, rdr: ByteCursor, opcode: u16) -> (packet: SoePacket)
        requires
            rdr.pos == 2,
        ensures
            packet@ == ack_of(rdr.data@, opcode, old(self).use_crc, old(self).crc_seed),
            *final(self) == *old(self),
    {
        if !check_min_size(&rdr, PacketsMinSize::Ack.size(), self.use_crc) {
            return Self::size_error(&rdr);
        }
        if self.use_crc {
            if let Some(error) = self.check_crc(&rdr) {
                return error;
            }
        }
        SoePacket::AckPacket(AckPacket::from(rdr, opcode))
    }

    /// Decodes the sub-packets of a grouped datagram, each as a datagram
    /// without a checksum. The checksum setting is the same after the call
    /// as before it, however the call ends.
    fn parse_multi(&mut self, rdr: ByteCursor, opcode: u16) -> (packet: SoePacket)
        requires
            rdr.pos == 2,
        ensures
            packet@ == grouped_of(rdr.data@, opcode, old(self).use_crc, old(self).crc_seed),
            *final(self) == *old(self),
        decreases rdr.data@.len(), 1int,
    {
        if !check_min_size(&rdr, PacketsMinSize::MultiPacket.size(), self.use_crc) {
            return Self::size_error(&rdr);
        }
        let data_end = get_data_end(&rdr, self.use_crc);
        let was_crc_enabled = self.is_using_crc();
        if was_crc_enabled {
            if let Some(error) = self.check_crc(&rdr) {
                return error;
            }
            self.disable_crc();
        }
        let ghost data = rdr.data@;
        let mut cursor = rdr;
        let ghost seed = self.crc_seed;
        let ghost whole = soe_parse_sub_packets(data, 2, data_end as int, seed);
        let mut grouped = GroupedPackets::with_opcode(opcode);
        let mut failure: Option<SoePacket> = None;
        let mut done = false;
        assert(after_earlier(packet_views(grouped.sub_packets@), whole) == whole) by {
            if let Ok(later) = whole {
                assert(packet_views(grouped.sub_packets@) + later =~= later);
            }
        }
        while !done
            invariant
                cursor.data@ == data,
                data == rdr.data@,
                data_end <= data.len(),
                grouped.opcode == opcode,
                self.use_crc == false,
                self.crc_seed == seed,
                whole == soe_parse_sub_packets(data, 2, data_end as int, seed),
                !done ==> 2 <= cursor.pos < data_end,
                !done ==> failure is None,
                !done ==> whole == after_earlier(
                    packet_views(grouped.sub_packets@),
                    soe_parse_sub_packets(data, cursor.pos as int, data_end as int, seed),
                ),
                done && failure is None ==> whole == Ok::<
                    Seq<SoePacketView>,
                    ProtocolErrorView,
                >(packet_views(grouped.sub_packets@)),
                done && failure is Some ==> whole is Err && failure->0@ == SoePacketView::Error(
                    whole->Err_0,
                ),
            decreases
                    (if done {
                        0int
                    } else {
                        data_end - cursor.pos + 1
                    }),
        {
            let ghost pos = cursor.pos as int;
            let ghost earlier = packet_views(grouped.sub_packets@);
            let sub_packet_data_length = read_data_length(&mut cursor);
            assert(cursor.pos > pos);
            if sub_packet_data_length == 0 || cursor.position() > data_end
                || sub_packet_data_length as u64 > data_end - cursor.position() {
                failure = Some(
                    SoePacket::Error(
                        ProtocolError::Corruption {
                            subpacket_length: sub_packet_data_length,
                            data_end,
                            position: cursor.position(),
                            raw: cursor.get_ref().clone(),
                        },
                    ),
                );
                done = true;
            } else {
                let sub_packet_data = extract_subpacket_data(
                    &cursor,
                    cursor.position(),
                    sub_packet_data_length,
                );
                cursor.set_position(sub_packet_data_length as u64 + cursor.position());
                let sub_packet = self.parse(sub_packet_data);
                grouped.add_packet(sub_packet.packet);
                proof {
                    let later = packet_views(grouped.sub_packets@);
                    assert(later =~= earlier + seq![sub_packet.packet@]);
                    if cursor.pos != data_end {
                        let rest = soe_parse_sub_packets(
                            data,
                            cursor.pos as int,
                            data_end as int,
                            seed,
                        );
                        if let Ok(tail) = rest {
                            assert(earlier + (seq![sub_packet.packet@] + tail) =~= later + tail);
                        }
                    }
                }
                if cursor.position() == data_end {
                    done = true;
                }
            }
        }
        if was_crc_enabled {
            self.enable_crc();
        }
        match failure {
            Some(error) => error,
            None => {
                let packet = SoePacket::GroupedPackets(grouped);
                assert(packet@->Grouped_sub_packets =~= whole->Ok_0);
                packet
            },
        }
    }

    /// Decodes one datagram. The result is the record of the datagram, or
    /// the reason why it has none; the codec is left as it was. A datagram
    /// shorter than its kind allows gives a size error, and one that is
    /// long enough but fails the check of its checksum a checksum error.
    pub fn parse(&mut self, data: Vec<u8>) -> (parsed: SoePacketParsed)
        ensures
            parsed.opcode == datagram_opcode(data@),
            parsed.packet@ == soe_parse(data@, old(self).use_crc, old(self).crc_seed),
            *final(self) == *old(self),
            is_too_short(data@, old(self).use_crc) ==> parsed.packet@ == size_error(data@),
            fails_crc_check(data@, old(self).use_crc, old(self).crc_seed) ==> parsed.packet@
                == crc_error(data@, old(self).crc_seed),
        decreases data@.len(), 2int,
    {
        proof {
            if is_too_short(data@, self.use_crc) {
                lemma_short_datagram_is_size_error(data@, self.use_crc, self.crc_seed);
            }
            if fails_crc_check(data@, self.use_crc, self.crc_seed) {
                lemma_crc_mismatch_is_crc_error(data@, self.use_crc, self.crc_seed);
            }
        }
        let mut rdr = ByteCursor::new(&data);
        let opcode: SoeOpcode = if data.len() >= 2 {
            self.get_opcode(&mut rdr)
        } else {
            SoeOpcode::Unknown
        };
        let packet = match opcode {
            SoeOpcode::SessionRequest => self.parse_session_request(rdr),
            SoeOpcode::SessionReply => self.parse_session_reply(rdr),
            SoeOpcode::MultiPacket => self.parse_multi(rdr, opcode.value()),
            SoeOpcode::Group => self.parse_multi(rdr, opcode.value()),
            SoeOpcode::Disconnect => self.parse_disconnect(rdr),
            SoeOpcode::Ping => SoePacket::PingPacket(PingPacket {  }),
            SoeOpcode::NetStatusRequest => self.parse_net_status_request(rdr),
            SoeOpcode::NetStatusReply => self.parse_net_status_reply(rdr),
            SoeOpcode::Data => self.parse_data(rdr, opcode.value()),
            SoeOpcode::DataFragment => self.parse_data(rdr, opcode.value()),
            SoeOpcode::OutOfOrder => self.parse_ack(rdr, opcode.value()),
            SoeOpcode::Ack => self.parse_ack(rdr, opcode.value()),
            SoeOpcode::Ordered => self.parse_ordered(rdr),
            SoeOpcode::FatalError => SoePacket::FatalErrorPacket(
                FatalErrorPacket { raw: data.clone() },
            ),
            SoeOpcode::Unknown => SoePacket::UnknownPacket(UnknownPacket { raw: data.clone() }),
        };
        SoePacketParsed::new(opcode, packet)
    }

    /// Ends a datagram: appends its checksum where the session uses one.
    fn seal(&self, wtr: &mut Vec<u8>)
        ensures
            final(wtr)@ == with_crc(old(wtr)@, self.use_crc, self.crc_seed),
    {
        if self.use_crc {
            append_crc(wtr, self.crc_seed);
        }
    }

    /// The datagram of a session request. It never carries a checksum.
    pub fn pack_session_request_object(&mut self, packet: SessionRequestPacket) -> (wtr: Vec<u8>)
        ensures
            wtr@ == session_request_bytes(
                packet.protocol_version,
                packet.session_id,
                packet.udp_length,
                packet.protocol@,
            ),
            *final(self) == *old(self),
    {
        let mut wtr: Vec<u8> = Vec::new();
        put_u16_be(&mut wtr, SoeOpcode::SessionRequest.value());
        put_u32_be(&mut wtr, packet.protocol_version);
        put_u32_be(&mut wtr, packet.session_id);
        put_u32_be(&mut wtr, packet.udp_length);
        let mut protocol = u8_from_str_nul_utf8_unchecked(packet.protocol.as_str());
        wtr.append(&mut protocol);
        assert(wtr@ =~= session_request_bytes(
            packet.protocol_version,
            packet.session_id,
            packet.udp_length,
            packet.protocol@,
        ));
        wtr
    }

    /// The datagram of a session reply. It never carries a checksum.
    pub fn pack_session_reply_object(&mut self, packet: SessionReplyPacket) -> (wtr: Vec<u8>)
        ensures
            wtr@ == session_reply_bytes(packet),
            *final(self) == *old(self),
    {
        let mut packet = packet;
        packet.build()
    }

    /// The datagram of a client's statistics. It never carries a checksum
    /// beyond the fields themselves.
    pub fn pack_net_status_request_object(&mut self, packet: NetStatusRequestPacket) -> (wtr: Vec<
        u8,
    >)
        ensures
            wtr@ == net_status_request_bytes(packet),
            *final(self) == *old(self),
    {
        let mut wtr: Vec<u8> = Vec::new();
        put_u16_be(&mut wtr, SoeOpcode::NetStatusRequest.value());
        put_u16_be(&mut wtr, packet.client_tick_count);
        put_u32_be(&mut wtr, packet.last_client_update);
        put_u32_be(&mut wtr, packet.average_update);
        put_u32_be(&mut wtr, packet.shortest_update);
        put_u32_be(&mut wtr, packet.longest_update);
        put_u32_be(&mut wtr, packet.last_server_update);
        put_u64_be(&mut wtr, packet.packets_sent);
        put_u64_be(&mut wtr, packet.packets_received);
        put_u16_be(&mut wtr, packet.unknown_field);
        assert(wtr@ =~= net_status_request_bytes(packet));
        wtr
    }

    /// The datagram of a server's statistics. It never carries a checksum
    /// beyond the fields themselves.
    pub fn pack_net_status_reply_object(&mut self, packet: NetStatusReplyPacket) -> (wtr: Vec<u8>)
        ensures
            wtr@ == net_status_reply_bytes(packet),
            *final(self) == *old(self),
    {
        let mut wtr: Vec<u8> = Vec::new();
        put_u16_be(&mut wtr, SoeOpcode::NetStatusReply.value());
        put_u16_be(&mut wtr, packet.client_tick_count);
        put_u32_be(&mut wtr, packet.server_tick_count);
        put_u64_be(&mut wtr, packet.client_packet_sent);
        put_u64_be(&mut wtr, packet.client_packet_received);
        put_u64_be(&mut wtr, packet.server_packet_sent);
        put_u64_be(&mut wtr, packet.server_packet_received);
        put_u16_be(&mut wtr, packet.unknown_field);
        assert(wtr@ =~= net_status_reply_bytes(packet));
        wtr
    }

    /// The grouped datagram that carries the datagrams `packets` under
    /// `opcode`: each behind its length prefix, and the checksum of the whole
    /// where the session uses one. Its length is two for the opcode, the
    /// lengths of the sub-packets and of their prefixes, and two for the
    /// checksum where there is one.
    pub fn group_packets(&mut self, opcode: u16, packets: &Vec<Vec<u8>>) -> (wtr: Vec<u8>)
        ensures
            wtr@ == with_crc(
                group_bytes(opcode, byte_views(packets@)),
                old(self).use_crc,
                old(self).crc_seed,
            ),
            wtr@.len() == 2 + framed_len(byte_views(packets@)) + (if old(self).use_crc {
                2int
            } else {
                0int
            }),
            *final(self) == *old(self),
    {
        let mut wtr: Vec<u8> = Vec::new();
        put_u16_be(&mut wtr, opcode);
        let ghost subs = byte_views(packets@);
        let mut i: usize = 0;
        assert(subs.take(0) =~= Seq::<Seq<u8>>::empty());
        while i < packets.len()
            invariant
                i <= packets@.len(),
                subs == byte_views(packets@),
                wtr@ == group_bytes(opcode, subs.take(i as int)),
            decreases packets@.len() - i,
        {
            let packet = &packets[i];
            write_data_length(&mut wtr, packet.len());
            let mut bytes = packet.clone();
            wtr.append(&mut bytes);
            proof {
                let now = subs.take(i + 1);
                assert(now.drop_last() =~= subs.take(i as int));
                assert(now.last() == packet@);
                assert(wtr@ =~= group_bytes(opcode, now));
            }
            i = i + 1;
        }
        proof {
            assert(subs.take(i as int) =~= subs);
            lemma_sub_packet_frames_len(subs);
        }
        self.seal(&mut wtr);
        wtr
    }

    /// The group datagram that carries the given datagrams.
    pub fn pack_group_object(&mut self, group_packet: SubBasePackets) -> (wtr: Vec<u8>)
        ensures
            wtr@ == with_crc(
                group_bytes(
                    SoeOpcode::Group.spec_value(),
                    byte_views(group_packet.sub_packets@),
                ),
                old(self).use_crc,
                old(self).crc_seed,
            ),
            *final(self) == *old(self),
    {
        self.group_packets(SoeOpcode::Group.value(), group_packet.get_sub_packets())
    }

    /// The multi-packet datagram that carries the given datagrams.
    pub fn pack_multi_object(&mut self, multi_packet: SubBasePackets) -> (wtr: Vec<u8>)
        ensures
            wtr@ == with_crc(
                group_bytes(
                    SoeOpcode::MultiPacket.spec_value(),
                    byte_views(multi_packet.sub_packets@),
                ),
                old(self).use_crc,
                old(self).crc_seed,
            ),
            *final(self) == *old(self),
    {
        self.group_packets(SoeOpcode::MultiPacket.value(), multi_packet.get_sub_packets())
    }

    /// The datagram of a sequenced payload under `opcode`, whatever opcode
    /// the packet itself names.
    fn _pack_data_object(&mut self, opcode: u16, packet: DataPacket) -> (wtr: Vec<u8>)
        ensures
            wtr@ == with_crc(
                data_bytes(opcode, packet.sequence, packet.data@),
                old(self).use_crc,
                old(self).crc_seed,
            ),
            *final(self) == *old(self),
    {
        let ghost payload = packet.data@;
        let mut packet = packet;
        let mut wtr: Vec<u8> = Vec::new();
        put_u16_be(&mut wtr, opcode);
        write_packet_data(&mut wtr, &mut packet);
        assert(wtr@ =~= data_bytes(opcode, packet.sequence, payload));
        self.seal(&mut wtr);
        wtr
    }

    /// The datagram that carries the packet as reliable data.
    pub fn pack_data_object(&mut self, packet: DataPacket) -> (wtr: Vec<u8>)
        ensures
            wtr@ == with_crc(
                data_bytes(SoeOpcode::Data.spec_value(), packet.sequence, packet.data@),
                old(self).use_crc,
                old(self).crc_seed,
            ),
            *final(self) == *old(self),
    {
        self._pack_data_object(SoeOpcode::Data.value(), packet)
    }

    /// The datagram that carries the packet as a fragment of reliable data.
    pub fn pack_fragment_data_object(&mut self, packet: DataPacket) -> (wtr: Vec<u8>)
        ensures
            wtr@ == with_crc(
                data_bytes(SoeOpcode::DataFragment.spec_value(), packet.sequence, packet.data@),
                old(self).use_crc,
                old(self).crc_seed,
            ),
            *final(self) == *old(self),
    {
        self._pack_data_object(SoeOpcode::DataFragment.value(), packet)
    }

    /// The datagram that carries the packet as ordered data.
    pub fn pack_ordered_object(&mut self, packet: DataPacket) -> (wtr: Vec<u8>)
        ensures
            wtr@ == with_crc(
                data_bytes(SoeOpcode::Ordered.spec_value(), packet.sequence, packet.data@),
                old(self).use_crc,
                old(self).crc_seed,
            ),
            *final(self) == *old(self),
    {
        self._pack_data_object(SoeOpcode::Ordered.value(), packet)
    }

    /// The datagram of an acknowledgement of `sequence` under `opcode`.
    fn _pack_ack_object(&mut self, opcode: u16, sequence: u16) -> (wtr: Vec<u8>)
        ensures
            wtr@ == with_crc(ack_bytes(opcode, sequence), old(self).use_crc, old(self).crc_seed),
            *final(self) == *old(self),
    {
        let mut wtr: Vec<u8> = Vec::new();
        put_u16_be(&mut wtr, opcode);
        put_u16_be(&mut wtr, sequence);
        assert(wtr@ =~= ack_bytes(opcode, sequence));
        self.seal(&mut wtr);
        wtr
    }

    /// The datagram that reports the packet's sequence number as out of order.
    pub fn pack_out_of_order_object(&mut self, packet: AckPacket) -> (wtr: Vec<u8>)
        ensures
            wtr@ == with_crc(
                ack_bytes(SoeOpcode::OutOfOrder.spec_value(), packet.sequence),
                old(self).use_crc,
                old(self).crc_seed,
            ),
            *final(self) == *old(self),
    {
        self._pack_ack_object(SoeOpcode::OutOfOrder.value(), packet.sequence)
    }

    /// The datagram that acknowledges the packet's sequence number.
    pub fn pack_ack_object(&mut self, packet: AckPacket) -> (wtr: Vec<u8>)
        ensures
            wtr@ == with_crc(
                ack_bytes(SoeOpcode::Ack.spec_value(), packet.sequence),
                old(self).use_crc,
                old(self).crc_seed,
            ),
            *final(self) == *old(self),
    {
        self._pack_ack_object(SoeOpcode::Ack.value(), packet.sequence)
    }

    /// The datagram that carries `data` under `sequence` as ordered data.
    pub fn pack_ordered_packet(&mut self, data: Vec<u8>, sequence: u16) -> (wtr: Vec<u8>)
        ensures
            wtr@ == with_crc(
                data_bytes(SoeOpcode::Ordered.spec_value(), sequence, data@),
                old(self).use_crc,
                old(self).crc_seed,
            ),
            *final(self) == *old(self),
    {
        self.pack_ordered_object(DataPacket::new(data, sequence, SoeOpcode::Ordered.value()))
    }

    /// The datagram of the session request with the given fields.
    pub fn pack_session_request_packet(
        &mut self,
        session_id: u32,
        crc_length: u32,
        udp_length: u32,
        protocol: String,
    ) -> (wtr: Vec<u8>)
        ensures
            wtr@ == session_request_bytes(crc_length, session_id, udp_length, protocol@),
            *final(self) == *old(self),
    {
        self.pack_session_request_object(
            SessionRequestPacket::new(session_id, crc_length, udp_length, protocol),
        )
    }

    /// The datagram of the session reply with the given fields.
    pub fn pack_session_reply_packet(
        &mut self,
        session_id: u32,
        crc_seed: u32,
        crc_length: u8,
        encrypt_method: u16,
        udp_length: u32,
    ) -> (wtr: Vec<u8>)
        ensures
            wtr@ == session_reply_bytes(
                SessionReplyPacket { session_id, crc_seed, crc_length, encrypt_method, udp_length },
            ),
            *final(self) == *old(self),
    {
        self.pack_session_reply_object(
            SessionReplyPacket { session_id, crc_seed, crc_length, encrypt_method, udp_length },
        )
    }

    /// The datagram that carries `data` under `sequence` as reliable data.
    pub fn pack_data_packet(&mut self, data: Vec<u8>, sequence: u16) -> (wtr: Vec<u8>)
        ensures
            wtr@ == with_crc(
                data_bytes(SoeOpcode::Data.spec_value(), sequence, data@),
                old(self).use_crc,
                old(self).crc_seed,
            ),
            *final(self) == *old(self),
    {
        self.pack_data_object(DataPacket::new(data, sequence, SoeOpcode::Data.value()))
    }

    /// The datagram that carries `data` under `sequence` as a fragment.
    pub fn pack_fragment_data_packet(&mut self, data: Vec<u8>, sequence: u16) -> (wtr: Vec<u8>)
        ensures
            wtr@ == with_crc(
                data_bytes(SoeOpcode::DataFragment.spec_value(), sequence, data@),
                old(self).use_crc,
                old(self).crc_seed,
            ),
            *final(self) == *old(self),
    {
        self.pack_fragment_data_object(
            DataPacket::new(data, sequence, SoeOpcode::DataFragment.value()),
        )
    }

    /// The datagram that reports `sequence` as out of order.
    pub fn pack_out_of_order_packet(&mut self, sequence: u16) -> (wtr: Vec<u8>)
        ensures
            wtr@ == with_crc(
                ack_bytes(SoeOpcode::OutOfOrder.spec_value(), sequence),
                old(self).use_crc,
                old(self).crc_seed,
            ),
            *final(self) == *old(self),
    {
        self.pack_out_of_order_object(
            AckPacket { opcode: SoeOpcode::OutOfOrder.value(), sequence },
        )
    }

    /// The datagram that acknowledges `sequence`.
    pub fn pack_ack_packet(&mut self, sequence: u16) -> (wtr: Vec<u8>)
        ensures
            wtr@ == with_crc(
                ack_bytes(SoeOpcode::Ack.spec_value(), sequence),
                old(self).use_crc,
                old(self).crc_seed,
            ),
            *final(self) == *old(self),
    {
        self.pack_ack_object(AckPacket { opcode: SoeOpcode::Ack.value(), sequence })
    }

    /// The datagram of `packet` for a session with the given checksum
    /// settings.
    fn serialize(packet: &SoePacket, use_crc: bool, crc_seed: u32) -> (wtr: Vec<u8>)
        ensures
            wtr@ == soe_serialize(packet@, use_crc, crc_seed),
        decreases packet,
    {
        let mut codec = Soeprotocol { use_crc, crc_seed };
        match packet {
            SoePacket::SessionRequestPacket(p) => codec.pack_session_request_object(p.duplicate()),
            SoePacket::SessionReplyPacket(p) => codec.pack_session_reply_object(*p),
            SoePacket::NetStatusRequestPacket(p) => codec.pack_net_status_request_object(*p),
            SoePacket::NetStatusReplyPacket(p) => codec.pack_net_status_reply_object(*p),
            SoePacket::DataPacket(p) => codec._pack_data_object(p.opcode, p.duplicate()),
            SoePacket::AckPacket(p) => codec._pack_ack_object(p.opcode, p.sequence),
            SoePacket::GroupedPackets(g) => {
                let ghost subs = packet@->Grouped_sub_packets;
                let mut wtr: Vec<u8> = Vec::new();
                put_u16_be(&mut wtr, g.opcode);
                let mut i: usize = 0;
                assert(subs.take(0) =~= Seq::<SoePacketView>::empty());
                while i < g.sub_packets.len()
                    invariant
                        i <= g.sub_packets@.len(),
                        packet is GroupedPackets,
                        packet->GroupedPackets_0 == *g,
                        subs == packet@->Grouped_sub_packets,
                        wtr@ == group_bytes(
                            g.opcode,
                            soe_serialize_all(subs.take(i as int), crc_seed),
                        ),
                    decreases g.sub_packets@.len() - i,
                {
                    let mut bytes = Self::serialize(&g.sub_packets[i], false, crc_seed);
                    write_data_length(&mut wtr, bytes.len());
                    proof {
                        let now = subs.take(i + 1);
                        let before = soe_serialize_all(subs.take(i as int), crc_seed);
                        assert(now.drop_last() =~= subs.take(i as int));
                        assert(now.last() == g.sub_packets@[i as int]@);
                        assert(soe_serialize_all(now, crc_seed) == before.push(bytes@));
                        assert(before.push(bytes@).drop_last() =~= before);
                    }
                    wtr.append(&mut bytes);
                    assert(wtr@ =~= group_bytes(
                        g.opcode,
                        soe_serialize_all(subs.take(i + 1), crc_seed),
                    ));
                    i = i + 1;
                }
                assert(subs.take(i as int) =~= subs);
                codec.seal(&mut wtr);
                wtr
            },
            SoePacket::PingPacket(_) => {
                let mut wtr: Vec<u8> = Vec::new();
                put_u16_be(&mut wtr, SoeOpcode::Ping.value());
                assert(wtr@ =~= u16_be_bytes(0x06));
                wtr
            },
            SoePacket::DisconnectPacket(_) => {
                let mut wtr: Vec<u8> = Vec::new();
                put_u16_be(&mut wtr, SoeOpcode::Disconnect.value());
                assert(wtr@ =~= u16_be_bytes(0x05));
                wtr
            },
            SoePacket::FatalErrorPacket(_) => Vec::new(),
            SoePacket::UnknownPacket(_) => Vec::new(),
            SoePacket::Error(_) => Vec::new(),
        }
    }

    /// The datagram of `packet`, under the opcode that the record itself
    /// names or its kind implies. The datagram of a valid record decodes to
    /// the record.
    pub fn pack_packet(&mut self, packet: &SoePacket) -> (wtr: Vec<u8>)
        ensures
            wtr@ == soe_serialize(packet@, old(self).use_crc, old(self).crc_seed),
            *final(self) == *old(self),
            valid_record(packet@, old(self).use_crc, old(self).crc_seed) ==> soe_parse(
                wtr@,
                old(self).use_crc,
                old(self).crc_seed,
            ) == packet@,
    {
        proof {
            if valid_record(packet@, self.use_crc, self.crc_seed) {
                lemma_parse_serialize_roundtrip(packet@, self.use_crc, self.crc_seed);
            }
        }
        Self::serialize(packet, self.use_crc, self.crc_seed)
    }

    /// The session request that `packet` holds, or the error that it holds none.
    pub fn get_session_request_object(&mut self, packet: SoePacket) -> (object: Result<
        SessionRequestPacket,
        ProtocolError,
    >)
        ensures
            object is Ok <==> packet is SessionRequestPacket,
            object is Ok ==> object->Ok_0 == packet->SessionRequestPacket_0,
            object is Err ==> object->Err_0@ == ProtocolError::wrong_kind_error(),
            *final(self) == *old(self),
    {
        match packet {
            SoePacket::SessionRequestPacket(p) => Ok(p),
            _ => Err(ProtocolError::wrong_kind()),
        }
    }

    /// The session reply that `packet` holds, or the error that it holds none.
    pub fn get_session_reply_object(&mut self, packet: SoePacket) -> (object: Result<
        SessionReplyPacket,
        ProtocolError,
    >)
        ensures
            object is Ok <==> packet is SessionReplyPacket,
            object is Ok ==> object->Ok_0 == packet->SessionReplyPacket_0,
            object is Err ==> object->Err_0@ == ProtocolError::wrong_kind_error(),
            *final(self) == *old(self),
    {
        match packet {
            SoePacket::SessionReplyPacket(p) => Ok(p),
            _ => Err(ProtocolError::wrong_kind()),
        }
    }

    /// The client statistics that `packet` holds, or the error that it holds none.
    pub fn get_net_status_request_object(&mut self, packet: SoePacket) -> (object: Result<
        NetStatusRequestPacket,
        ProtocolError,
    >)
        ensures
            object is Ok <==> packet is NetStatusRequestPacket,
            object is Ok ==> object->Ok_0 == packet->NetStatusRequestPacket_0,
            object is Err ==> object->Err_0@ == ProtocolError::wrong_kind_error(),
            *final(self) == *old(self),
    {
        match packet {
            SoePacket::NetStatusRequestPacket(p) => Ok(p),
            _ => Err(ProtocolError::wrong_kind()),
        }
    }

    /// The sub-packets that `packet` holds, or the error that it holds none.
    pub fn get_multi_object(&mut self, packet: SoePacket) -> (object: Result<
        GroupedPackets,
        ProtocolError,
    >)
        ensures
            object is Ok <==> packet is GroupedPackets,
            object is Ok ==> object->Ok_0 == packet->GroupedPackets_0,
            object is Err ==> object->Err_0@ == ProtocolError::wrong_kind_error(),
            *final(self) == *old(self),
    {
        match packet {
            SoePacket::GroupedPackets(p) => Ok(p),
            _ => Err(ProtocolError::wrong_kind()),
        }
    }

    /// The sequenced payload that `packet` holds, or the error that it holds none.
    pub fn get_data_object(&mut self, packet: SoePacket) -> (object: Result<
        DataPacket,
        ProtocolError,
    >)
        ensures
            object is Ok <==> packet is DataPacket,
            object is Ok ==> object->Ok_0 == packet->DataPacket_0,
            object is Err ==> object->Err_0@ == ProtocolError::wrong_kind_error(),
            *final(self) == *old(self),
    {
        match packet {
            SoePacket::DataPacket(p) => Ok(p),
            _ => Err(ProtocolError::wrong_kind()),
        }
    }

    /// The acknowledgement that `packet` holds, or the error that it holds none.
    pub fn get_ack_object(&mut self, packet: SoePacket) -> (object: Result<
        AckPacket,
        ProtocolError,
    >)
        ensures
            object is Ok <==> packet is AckPacket,
            object is Ok ==> object->Ok_0 == packet->AckPacket_0,
            object is Err ==> object->Err_0@ == ProtocolError::wrong_kind_error(),
            *final(self) == *old(self),
    {
        match packet {
            SoePacket::AckPacket(p) => Ok(p),
            _ => Err(ProtocolError::wrong_kind()),
        }
    }

    /// The server statistics that `packet` holds, or empty statistics
    /// where it holds none.
    pub fn get_net_status_reply_object(&mut self, packet: SoePacket) -> (object:
        NetStatusReplyPacket)
        ensures
            packet is NetStatusReplyPacket ==> object == packet->NetStatusReplyPacket_0,
            !(packet is NetStatusReplyPacket) ==> object == empty_net_status_reply(),
            *final(self) == *old(self),
    {
        match packet {
            SoePacket::NetStatusReplyPacket(p) => p,
            _ => NetStatusReplyPacket {
                client_tick_count: 0,
                server_tick_count: 0,
                client_packet_sent: 0,
                client_packet_received: 0,
                server_packet_sent: 0,
                server_packet_received: 0,
                unknown_field: 0,
            },
        }
    }

    /// The datagram of the in-band report of `error`.
    fn refuse(error: ProtocolError) -> (wtr: Vec<u8>)
        requires
            error@ == ProtocolError::wrong_kind_error(),
        ensures
            wtr@ == wrong_kind_frame(),
    {
        gen_deserializing_error_json(deserializing_message(&error))
    }

    /// The datagram of the session request that `packet` holds.
    pub fn pack_session_request(&mut self, packet: SoePacket) -> (wtr: Vec<u8>)
        ensures
            wtr@ == soe_pack(
                SoeOpcode::SessionRequest,
                packet@,
                old(self).use_crc,
                old(self).crc_seed,
            ),
            *final(self) == *old(self),
    {
        match self.get_session_request_object(packet) {
            Ok(object) => self.pack_session_request_object(object),
            Err(error) => Self::refuse(error),
        }
    }

    /// The datagram of the session reply that `packet` holds.
    pub fn pack_session_reply(&mut self, packet: SoePacket) -> (wtr: Vec<u8>)
        ensures
            wtr@ == soe_pack(
                SoeOpcode::SessionReply,
                packet@,
                old(self).use_crc,
                old(self).crc_seed,
            ),
            *final(self) == *old(self),
    {
        match self.get_session_reply_object(packet) {
            Ok(object) => self.pack_session_reply_object(object),
            Err(error) => Self::refuse(error),
        }
    }

    /// The datagram of the client statistics that `packet` holds.
    pub fn pack_net_status_request(&mut self, packet: SoePacket) -> (wtr: Vec<u8>)
        ensures
            wtr@ == soe_pack(
                SoeOpcode::NetStatusRequest,
                packet@,
                old(self).use_crc,
                old(self).crc_seed,
            ),
            *final(self) == *old(self),
    {
        match self.get_net_status_request_object(packet) {
            Ok(object) => self.pack_net_status_request_object(object),
            Err(error) => Self::refuse(error),
        }
    }

    /// The datagram of the server statistics that `packet` holds, or of
    /// empty statistics where it holds none.
    pub fn pack_net_status_reply(&mut self, packet: SoePacket) -> (wtr: Vec<u8>)
        ensures
            wtr@ == soe_pack(
                SoeOpcode::NetStatusReply,
                packet@,
                old(self).use_crc,
                old(self).crc_seed,
            ),
            *final(self) == *old(self),
    {
        let object = self.get_net_status_reply_object(packet);
        self.pack_net_status_reply_object(object)
    }

    /// The datagram that carries the sub-packets of `packet` under `opcode`.
    fn pack_grouped(&mut self, opcode: u16, packet: SoePacket) -> (wtr: Vec<u8>)
        ensures
            packet is GroupedPackets ==> wtr@ == soe_serialize(
                SoePacketView::Grouped { opcode, sub_packets: packet@->Grouped_sub_packets },
                old(self).use_crc,
                old(self).crc_seed,
            ),
            !(packet is GroupedPackets) ==> wtr@ == wrong_kind_frame(),
            *final(self) == *old(self),
    {
        match self.get_multi_object(packet) {
            Ok(object) => {
                let regrouped = SoePacket::GroupedPackets(
                    GroupedPackets { opcode, sub_packets: object.sub_packets },
                );
                assert(regrouped@->Grouped_sub_packets =~= packet@->Grouped_sub_packets);
                self.pack_packet(&regrouped)
            },
            Err(error) => Self::refuse(error),
        }
    }

    /// The multi-packet datagram of the sub-packets that `packet` holds.
    pub fn pack_multi(&mut self, packet: SoePacket) -> (wtr: Vec<u8>)
        ensures
            wtr@ == soe_pack(
                SoeOpcode::MultiPacket,
                packet@,
                old(self).use_crc,
                old(self).crc_seed,
            ),
            *final(self) == *old(self),
    {
        self.pack_grouped(SoeOpcode::MultiPacket.value(), packet)
    }

    /// The group datagram of the sub-packets that `packet` holds.
    pub fn pack_group(&mut self, packet: SoePacket) -> (wtr: Vec<u8>)
        ensures
            wtr@ == soe_pack(SoeOpcode::Group, packet@, old(self).use_crc, old(self).crc_seed),
            *final(self) == *old(self),
    {
        self.pack_grouped(SoeOpcode::Group.value(), packet)
    }

    /// The datagram that carries the payload of `packet` as reliable data.
    pub fn pack_data(&mut self, packet: SoePacket) -> (wtr: Vec<u8>)
        ensures
            wtr@ == soe_pack(SoeOpcode::Data, packet@, old(self).use_crc, old(self).crc_seed),
            *final(self) == *old(self),
    {
        match self.get_data_object(packet) {
            Ok(object) => self.pack_data_object(object),
            Err(error) => Self::refuse(error),
        }
    }

    /// The datagram that carries the payload of `packet` as a fragment.
    pub fn pack_fragment_data(&mut self, packet: SoePacket) -> (wtr: Vec<u8>)
        ensures
            wtr@ == soe_pack(
                SoeOpcode::DataFragment,
                packet@,
                old(self).use_crc,
                old(self).crc_seed,
            ),
            *final(self) == *old(self),
    {
        match self.get_data_object(packet) {
            Ok(object) => self.pack_fragment_data_object(object),
            Err(error) => Self::refuse(error),
        }
    }

    /// The datagram that carries the payload of `packet` as ordered data.
    pub fn pack_ordered(&mut self, packet: SoePacket) -> (wtr: Vec<u8>)
        ensures
            wtr@ == soe_pack(SoeOpcode::Ordered, packet@, old(self).use_crc, old(self).crc_seed),
            *final(self) == *old(self),
    {
        match self.get_data_object(packet) {
            Ok(object) => self.pack_ordered_object(object),
            Err(error) => Self::refuse(error),
        }
    }

    /// The datagram that reports the sequence number of `packet` as out of
    /// order.
    pub fn pack_out_of_order(&mut self, packet: SoePacket) -> (wtr: Vec<u8>)
        ensures
            wtr@ == soe_pack(
                SoeOpcode::OutOfOrder,
                packet@,
                old(self).use_crc,
                old(self).crc_seed,
            ),
            *final(self) == *old(self),
    {
        match self.get_ack_object(packet) {
            Ok(object) => self.pack_out_of_order_object(object),
            Err(error) => Self::refuse(error),
        }
    }

    /// The datagram that acknowledges the sequence number of `packet`.
    pub fn pack_ack(&mut self, packet: SoePacket) -> (wtr: Vec<u8>)
        ensures
            wtr@ == soe_pack(SoeOpcode::Ack, packet@, old(self).use_crc, old(self).crc_seed),
            *final(self) == *old(self),
    {
        match self.get_ack_object(packet) {
            Ok(object) => self.pack_ack_object(object),
            Err(error) => Self::refuse(error),
        }
    }

    /// Encodes `packet` as a datagram of the kind `packet_opcode`.
    pub fn pack(&mut self, packet_opcode: SoeOpcode, packet: SoePacket) -> (wtr: Vec<u8>)
        ensures
            wtr@ == soe_pack(packet_opcode, packet@, old(self).use_crc, old(self).crc_seed),
            *final(self) == *old(self),
    {
        match packet_opcode {
            SoeOpcode::SessionRequest => self.pack_session_request(packet),
            SoeOpcode::SessionReply => self.pack_session_reply(packet),
            SoeOpcode::MultiPacket => self.pack_multi(packet),
            SoeOpcode::Group => self.pack_group(packet),
            SoeOpcode::Disconnect => {
                let mut wtr: Vec<u8> = Vec::new();
                put_u16_be(&mut wtr, SoeOpcode::Disconnect.value());
                assert(wtr@ =~= u16_be_bytes(0x05));
                wtr
            },
            SoeOpcode::Ping => {
                let mut wtr: Vec<u8> = Vec::new();
                put_u16_be(&mut wtr, SoeOpcode::Ping.value());
                assert(wtr@ =~= u16_be_bytes(0x06));
                wtr
            },
            SoeOpcode::NetStatusRequest => self.pack_net_status_request(packet),
            SoeOpcode::NetStatusReply => self.pack_net_status_reply(packet),
            SoeOpcode::Data => self.pack_data(packet),
            SoeOpcode::DataFragment => self.pack_fragment_data(packet),
            SoeOpcode::OutOfOrder => self.pack_out_of_order(packet),
            SoeOpcode::Ack => self.pack_ack(packet),
            SoeOpcode::Ordered => self.pack_ordered(packet),
            SoeOpcode::FatalError => Vec::new(),
            SoeOpcode::Unknown => Vec::new(),
        }
    }
}

} // verus!
