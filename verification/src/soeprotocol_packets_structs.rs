//! The records that SOE datagrams decode to.

use crate::byte_cursor::{
    be_u16_at, be_u32_at, be_u64_at, get_u16_be, pos_after, put_u16_be, put_u32_be, u16_be_bytes,
    u32_be_bytes, u64_be_bytes, u8_at, ByteCursor,
};
use crate::lib_utils::{str_from_u8_nul_utf8_checked, until_nul, utf8_or_empty};
use crate::protocol_errors::{ProtocolError, ProtocolErrorView};
use crate::soeprotocol::{packet_opcode, SoeOpcode};
use crate::soeprotocol_functions::{
    data_end_of, disconnect_reason_name, disconnect_reason_to_string, get_data_end,
    write_packet_data,
};
use vstd::prelude::*;
use vstd::slice::{slice_subrange, slice_to_vec};
use vstd::utf8::encode_utf8;

verus! {

/// The opening of a session, sent by the side that connects.
#[derive(Debug, Clone, PartialEq, Eq)]
pub struct SessionRequestPacket {
    pub session_id: u32,
    pub protocol_version: u32,
    /// The largest datagram that the sender will receive.
    pub udp_length: u32,
    pub protocol: String,
}

/// The fields of a session request that follow the opcode, read from `pos`
/// on: three big-endian 32-bit values, then the text up to its NUL.
pub open spec fn session_request_at(data: Seq<u8>, pos: int) -> SoePacketView {
    let at1 = pos_after(data, pos, 4);
    let at2 = pos_after(data, at1, 4);
    let at3 = pos_after(data, at2, 4);
    SoePacketView::SessionRequest {
        protocol_version: be_u32_at(data, pos),
        session_id: be_u32_at(data, at1),
        udp_length: be_u32_at(data, at2),
        protocol: utf8_or_empty(until_nul(data.subrange(at3, data.len() as int))),
    }
}

/// The datagram of a session request: the opcode, the protocol version, the
/// session, the datagram size, then the protocol's name and a NUL.
pub open spec fn session_request_bytes(
    protocol_version: u32,
    session_id: u32,
    udp_length: u32,
    protocol: Seq<char>,
) -> Seq<u8> {
    u16_be_bytes(0x01) + u32_be_bytes(protocol_version) + u32_be_bytes(session_id) + u32_be_bytes(
        udp_length,
    ) + encode_utf8(protocol).push(0)
}

impl SessionRequestPacket {
    pub open spec fn view(&self) -> SoePacketView {
        SoePacketView::SessionRequest {
            session_id: self.session_id,
            protocol_version: self.protocol_version,
            udp_length: self.udp_length,
            protocol: self.protocol@,
        }
    }

    pub fn new(
        session_id: u32,
        protocol_version: u32,
        udp_length: u32,
        protocol: String,
    ) -> (packet: Self)
        ensures
            packet.session_id == session_id,
            packet.protocol_version == protocol_version,
            packet.udp_length == udp_length,
            packet.protocol == protocol,
    {
        Self { session_id, protocol_version, udp_length, protocol }
    }

    pub fn get_session_id(&self) -> (v: u32)
        ensures
            v == self.session_id,
    {
        self.session_id
    }

    pub fn get_protocol_version(&self) -> (v: u32)
        ensures
            v == self.protocol_version,
    {
        self.protocol_version
    }

    /// The protocol version, under the name that the field has on the wire
    /// of some peers.
    pub fn get_crc_length(&self) -> (v: u32)
        ensures
            v == self.protocol_version,
    {
        self.protocol_version
    }

    pub fn get_udp_length(&self) -> (v: u32)
        ensures
            v == self.udp_length,
    {
        self.udp_length
    }

    pub fn get_protocol(&self) -> (v: String)
        ensures
            v@ == self.protocol@,
    {
        self.protocol.clone()
    }

    /// A copy of the packet.
    pub fn duplicate(&self) -> (copy: Self)
        ensures
            copy@ == self@,
    {
        Self {
            session_id: self.session_id,
            protocol_version: self.protocol_version,
            udp_length: self.udp_length,
            protocol: self.protocol.clone(),
        }
    }

    /// Reads the fields that follow the opcode, from the cursor's position on.
    pub fn from(rdr: ByteCursor) -> (packet: Self)
        ensures
            packet@ == session_request_at(rdr.data@, rdr.pos as int),
    {
        let mut rdr = rdr;
        let protocol_version = rdr.read_u32_be();
        let session_id = rdr.read_u32_be();
        let udp_length = rdr.read_u32_be();
        let raw = rdr.get_ref();
        let start = rdr.position() as usize;
        let protocol = str_from_u8_nul_utf8_checked(
            slice_subrange(raw.as_slice(), start, raw.len()),
        ).to_owned();
        Self { session_id, protocol_version, udp_length, protocol }
    }
}

/// The answer to a session request.
#[derive(Debug, Clone, Copy, PartialEq, Eq, Structural)]
pub struct SessionReplyPacket {
    pub session_id: u32,
    pub crc_seed: u32,
    pub crc_length: u8,
    pub encrypt_method: u16,
    pub udp_length: u32,
}

/// The fields of a session reply that follow the opcode, read from `pos` on.
pub open spec fn session_reply_at(data: Seq<u8>, pos: int) -> SessionReplyPacket {
    let at1 = pos_after(data, pos, 4);
    let at2 = pos_after(data, at1, 4);
    let at3 = pos_after(data, at2, 1);
    let at4 = pos_after(data, at3, 2);
    SessionReplyPacket {
        session_id: be_u32_at(data, pos),
        crc_seed: be_u32_at(data, at1),
        crc_length: u8_at(data, at2),
        encrypt_method: be_u16_at(data, at3),
        udp_length: be_u32_at(data, at4),
    }
}

/// The datagram of a session reply: the opcode, the fields, and a closing
/// 32-bit constant of three.
pub open spec fn session_reply_bytes(p: SessionReplyPacket) -> Seq<u8> {
    u16_be_bytes(0x02) + u32_be_bytes(p.session_id) + u32_be_bytes(p.crc_seed) + seq![
        p.crc_length,
    ] + u16_be_bytes(p.encrypt_method) + u32_be_bytes(p.udp_length) + u32_be_bytes(3)
}

impl SessionReplyPacket {
    pub fn new(
        session_id: u32,
        crc_seed: u32,
        crc_length: u8,
        encrypt_method: u16,
        udp_length: u32,
    ) -> (packet: Self)
        ensures
            packet == (SessionReplyPacket {
                session_id,
                crc_seed,
                crc_length,
                encrypt_method,
                udp_length,
            }),
    {
        Self { session_id, crc_seed, crc_length, encrypt_method, udp_length }
    }

    pub fn get_session_id(&self) -> (v: u32)
        ensures
            v == self.session_id,
    {
        self.session_id
    }

    pub fn get_crc_seed(&self) -> (v: u32)
        ensures
            v == self.crc_seed,
    {
        self.crc_seed
    }

    pub fn get_crc_length(&self) -> (v: u8)
        ensures
            v == self.crc_length,
    {
        self.crc_length
    }

    pub fn get_encrypt_method(&self) -> (v: u16)
        ensures
            v == self.encrypt_method,
    {
        self.encrypt_method
    }

    pub fn get_udp_length(&self) -> (v: u32)
        ensures
            v == self.udp_length,
    {
        self.udp_length
    }

    /// The datagram of this reply.
    pub fn build(&mut self) -> (wtr: Vec<u8>)
        ensures
            wtr@ == session_reply_bytes(*old(self)),
            *final(self) == *old(self),
    {
        let mut wtr: Vec<u8> = Vec::new();
        put_u16_be(&mut wtr, 0x02);
        put_u32_be(&mut wtr, self.session_id);
        put_u32_be(&mut wtr, self.crc_seed);
        wtr.push(self.crc_length);
        put_u16_be(&mut wtr, self.encrypt_method);
        put_u32_be(&mut wtr, self.udp_length);
        put_u32_be(&mut wtr, 3);
        assert(wtr@ =~= session_reply_bytes(*self));
        wtr
    }

    /// Reads the fields that follow the opcode, from the cursor's position on.
    pub fn from(rdr: ByteCursor) -> (packet: Self)
        ensures
            packet == session_reply_at(rdr.data@, rdr.pos as int),
    {
        let mut rdr = rdr;
        let session_id = rdr.read_u32_be();
        let crc_seed = rdr.read_u32_be();
        let crc_length = rdr.read_u8();
        let encrypt_method = rdr.read_u16_be();
        let udp_length = rdr.read_u32_be();
        Self { session_id, crc_seed, crc_length, encrypt_method, udp_length }
    }
}

/// The connection statistics that a client reports.
#[derive(Debug, Clone, Copy, PartialEq, Eq, Structural)]
pub struct NetStatusRequestPacket {
    pub client_tick_count: u16,
    pub last_client_update: u32,
    pub average_update: u32,
    pub shortest_update: u32,
    pub longest_update: u32,
    pub last_server_update: u32,
    pub packets_sent: u64,
    pub packets_received: u64,
    pub unknown_field: u16,
}

/// The fields of a client's statistics that follow the opcode, read from
/// `pos` on.
pub open spec fn net_status_request_at(data: Seq<u8>, pos: int) -> NetStatusRequestPacket {
    let at1 = pos_after(data, pos, 2);
    let at2 = pos_after(data, at1, 4);
    let at3 = pos_after(data, at2, 4);
    let at4 = pos_after(data, at3, 4);
    let at5 = pos_after(data, at4, 4);
    let at6 = pos_after(data, at5, 4);
    let at7 = pos_after(data, at6, 8);
    let at8 = pos_after(data, at7, 8);
    NetStatusRequestPacket {
        client_tick_count: be_u16_at(data, pos),
        last_client_update: be_u32_at(data, at1),
        average_update: be_u32_at(data, at2),
        shortest_update: be_u32_at(data, at3),
        longest_update: be_u32_at(data, at4),
        last_server_update: be_u32_at(data, at5),
        packets_sent: be_u64_at(data, at6),
        packets_received: be_u64_at(data, at7),
        unknown_field: be_u16_at(data, at8),
    }
}

/// The datagram of a client's statistics: the opcode and the fields in
/// declared order, 42 bytes.
pub open spec fn net_status_request_bytes(p: NetStatusRequestPacket) -> Seq<u8> {
    u16_be_bytes(0x07) + u16_be_bytes(p.client_tick_count) + u32_be_bytes(p.last_client_update)
        + u32_be_bytes(p.average_update) + u32_be_bytes(p.shortest_update) + u32_be_bytes(
        p.longest_update,
    ) + u32_be_bytes(p.last_server_update) + u64_be_bytes(p.packets_sent) + u64_be_bytes(
        p.packets_received,
    ) + u16_be_bytes(p.unknown_field)
}

impl NetStatusRequestPacket {
    pub fn new(
        client_tick_count: u16,
        last_client_update: u32,
        average_update: u32,
        shortest_update: u32,
        longest_update: u32,
        last_server_update: u32,
        packets_sent: u64,
        packets_received: u64,
        unknown_field: u16,
    ) -> (packet: Self)
        ensures
            packet == (NetStatusRequestPacket {
                client_tick_count,
                last_client_update,
                average_update,
                shortest_update,
                longest_update,
                last_server_update,
                packets_sent,
                packets_received,
                unknown_field,
            }),
    {
        Self {
            client_tick_count,
            last_client_update,
            average_update,
            shortest_update,
            longest_update,
            last_server_update,
            packets_sent,
            packets_received,
            unknown_field,
        }
    }

    pub fn get_client_tick_count(&self) -> (v: u16)
        ensures
            v == self.client_tick_count,
    {
        self.client_tick_count
    }

    pub fn get_last_client_update(&self) -> (v: u32)
        ensures
            v == self.last_client_update,
    {
        self.last_client_update
    }

    pub fn get_average_update(&self) -> (v: u32)
        ensures
            v == self.average_update,
    {
        self.average_update
    }

    pub fn get_shortest_update(&self) -> (v: u32)
        ensures
            v == self.shortest_update,
    {
        self.shortest_update
    }

    pub fn get_longest_update(&self) -> (v: u32)
        ensures
            v == self.longest_update,
    {
        self.longest_update
    }

    pub fn get_last_server_update(&self) -> (v: u32)
        ensures
            v == self.last_server_update,
    {
        self.last_server_update
    }

    pub fn get_packets_sent(&self) -> (v: u64)
        ensures
            v == self.packets_sent,
    {
        self.packets_sent
    }

    pub fn get_packets_received(&self) -> (v: u64)
        ensures
            v == self.packets_received,
    {
        self.packets_received
    }

    pub fn get_unknown_field(&self) -> (v: u16)
        ensures
            v == self.unknown_field,
    {
        self.unknown_field
    }

    /// Reads the fields that follow the opcode, from the cursor's position on.
    pub fn from(rdr: ByteCursor) -> (packet: Self)
        ensures
            packet == net_status_request_at(rdr.data@, rdr.pos as int),
    {
        let mut rdr = rdr;
        let client_tick_count = rdr.read_u16_be();
        let last_client_update = rdr.read_u32_be();
        let average_update = rdr.read_u32_be();
        let shortest_update = rdr.read_u32_be();
        let longest_update = rdr.read_u32_be();
        let last_server_update = rdr.read_u32_be();
        let packets_sent = rdr.read_u64_be();
        let packets_received = rdr.read_u64_be();
        let unknown_field = rdr.read_u16_be();
        Self {
            client_tick_count,
            last_client_update,
            average_update,
            shortest_update,
            longest_update,
            last_server_update,
            packets_sent,
            packets_received,
            unknown_field,
        }
    }
}

/// The connection statistics that a server answers with.
#[derive(Debug, Clone, Copy, PartialEq, Eq, Structural)]
pub struct NetStatusReplyPacket {
    pub client_tick_count: u16,
    pub server_tick_count: u32,
    pub client_packet_sent: u64,
    pub client_packet_received: u64,
    pub server_packet_sent: u64,
    pub server_packet_received: u64,
    pub unknown_field: u16,
}

/// The fields of a server's statistics that follow the opcode, read from
/// `pos` on.
pub open spec fn net_status_reply_at(data: Seq<u8>, pos: int) -> NetStatusReplyPacket {
    let at1 = pos_after(data, pos, 2);
    let at2 = pos_after(data, at1, 4);
    let at3 = pos_after(data, at2, 8);
    let at4 = pos_after(data, at3, 8);
    let at5 = pos_after(data, at4, 8);
    let at6 = pos_after(data, at5, 8);
    NetStatusReplyPacket {
        client_tick_count: be_u16_at(data, pos),
        server_tick_count: be_u32_at(data, at1),
        client_packet_sent: be_u64_at(data, at2),
        client_packet_received: be_u64_at(data, at3),
        server_packet_sent: be_u64_at(data, at4),
        server_packet_received: be_u64_at(data, at5),
        unknown_field: be_u16_at(data, at6),
    }
}

/// The datagram of a server's statistics: the opcode and the fields in
/// declared order, 42 bytes.
pub open spec fn net_status_reply_bytes(p: NetStatusReplyPacket) -> Seq<u8> {
    u16_be_bytes(0x08) + u16_be_bytes(p.client_tick_count) + u32_be_bytes(p.server_tick_count)
        + u64_be_bytes(p.client_packet_sent) + u64_be_bytes(p.client_packet_received)
        + u64_be_bytes(p.server_packet_sent) + u64_be_bytes(p.server_packet_received)
        + u16_be_bytes(p.unknown_field)
}

impl NetStatusReplyPacket {
    pub fn new(
        client_tick_count: u16,
        server_tick_count: u32,
        client_packet_sent: u64,
        client_packet_received: u64,
        server_packet_sent: u64,
        server_packet_received: u64,
        unknown_field: u16,
    ) -> (packet: Self)
        ensures
            packet == (NetStatusReplyPacket {
                client_tick_count,
                server_tick_count,
                client_packet_sent,
                client_packet_received,
                server_packet_sent,
                server_packet_received,
                unknown_field,
            }),
    {
        Self {
            client_tick_count,
            server_tick_count,
            client_packet_sent,
            client_packet_received,
            server_packet_sent,
            server_packet_received,
            unknown_field,
        }
    }

    pub fn get_client_tick_count(&self) -> (v: u16)
        ensures
            v == self.client_tick_count,
    {
        self.client_tick_count
    }

    pub fn get_server_tick_count(&self) -> (v: u32)
        ensures
            v == self.server_tick_count,
    {
        self.server_tick_count
    }

    pub fn get_client_packet_sent(&self) -> (v: u64)
        ensures
            v == self.client_packet_sent,
    {
        self.client_packet_sent
    }

    pub fn get_client_packet_received(&self) -> (v: u64)
        ensures
            v == self.client_packet_received,
    {
        self.client_packet_received
    }

    pub fn get_server_packet_sent(&self) -> (v: u64)
        ensures
            v == self.server_packet_sent,
    {
        self.server_packet_sent
    }

    pub fn get_server_packet_received(&self) -> (v: u64)
        ensures
            v == self.server_packet_received,
    {
        self.server_packet_received
    }

    pub fn get_unknown_field(&self) -> (v: u16)
        ensures
            v == self.unknown_field,
    {
        self.unknown_field
    }

    /// Reads the fields that follow the opcode, from the cursor's position on.
    pub fn from(rdr: ByteCursor) -> (packet: Self)
        ensures
            packet == net_status_reply_at(rdr.data@, rdr.pos as int),
    {
        let mut rdr = rdr;
        let client_tick_count = rdr.read_u16_be();
        let server_tick_count = rdr.read_u32_be();
        let client_packet_sent = rdr.read_u64_be();
        let client_packet_received = rdr.read_u64_be();
        let server_packet_sent = rdr.read_u64_be();
        let server_packet_received = rdr.read_u64_be();
        let unknown_field = rdr.read_u16_be();
        Self {
            client_tick_count,
            server_tick_count,
            client_packet_sent,
            client_packet_received,
            server_packet_sent,
            server_packet_received,
            unknown_field,
        }
    }
}

/// A sequenced payload: reliable data, a fragment of it, or ordered data,
/// as `opcode` says.
#[derive(Debug, Clone, PartialEq, Eq)]
pub struct DataPacket {
    pub data: Vec<u8>,
    pub opcode: u16,
    pub sequence: u16,
}

/// The sequenced payload of a datagram whose sequence number stands at `pos`:
/// the payload runs from the fifth byte to the end, or to the checksum where
/// the datagram carries one.
pub open spec fn data_packet_at(data: Seq<u8>, pos: int, opcode: u16, use_crc: bool)
    -> SoePacketView {
    SoePacketView::Data {
        opcode,
        sequence: be_u16_at(data, pos),
        data: data.subrange(4, data_end_of(data.len() as int, use_crc)),
    }
}

/// The datagram of a sequenced payload, without a checksum.
pub open spec fn data_bytes(opcode: u16, sequence: u16, data: Seq<u8>) -> Seq<u8> {
    u16_be_bytes(opcode) + u16_be_bytes(sequence) + data
}

impl DataPacket {
    pub open spec fn view(&self) -> SoePacketView {
        SoePacketView::Data { opcode: self.opcode, sequence: self.sequence, data: self.data@ }
    }

    pub fn new(data: Vec<u8>, sequence: u16, opcode: u16) -> (packet: Self)
        ensures
            packet.data == data,
            packet.sequence == sequence,
            packet.opcode == opcode,
    {
        Self { data, sequence, opcode }
    }

    pub fn get_sequence(&self) -> (v: u16)
        ensures
            v == self.sequence,
    {
        self.sequence
    }

    /// The payload, open to change.
    pub fn get_data(&mut self) -> (data: &mut Vec<u8>)
        ensures
            *data == old(self).data,
            final(self).data == *final(data),
            final(self).opcode == old(self).opcode,
            final(self).sequence == old(self).sequence,
    {
        &mut self.data
    }

    /// A copy of the packet.
    pub fn duplicate(&self) -> (copy: Self)
        ensures
            copy@ == self@,
    {
        Self { data: self.data.clone(), opcode: self.opcode, sequence: self.sequence }
    }

    /// The datagram of this packet, without a checksum. The payload moves
    /// into the datagram: the packet is left with none.
    pub fn build(&mut self) -> (wtr: Vec<u8>)
        ensures
            wtr@ == data_bytes(old(self).opcode, old(self).sequence, old(self).data@),
            final(self).data@ == Seq::<u8>::empty(),
            final(self).opcode == old(self).opcode,
            final(self).sequence == old(self).sequence,
    {
        let mut wtr: Vec<u8> = Vec::new();
        put_u16_be(&mut wtr, self.opcode);
        write_packet_data(&mut wtr, self);
        assert(wtr@ =~= data_bytes(old(self).opcode, old(self).sequence, old(self).data@));
        wtr
    }

    /// Reads the sequence number at the cursor's position and takes the
    /// payload from the fifth byte on.
    pub fn from(rdr: ByteCursor, opcode: u16, use_crc: bool) -> (packet: Self)
        requires
            4 <= data_end_of(rdr.data@.len() as int, use_crc),
        ensures
            packet@ == data_packet_at(rdr.data@, rdr.pos as int, opcode, use_crc),
    {
        let mut rdr = rdr;
        let sequence = rdr.read_u16_be();
        let data_end = get_data_end(&rdr, use_crc);
        let raw = rdr.get_ref();
        assert(data_end <= raw.len());
        let data = slice_to_vec(slice_subrange(raw.as_slice(), 4, data_end as usize));
        Self { data, sequence, opcode }
    }
}

/// An acknowledgement of a sequence number, or the report of one that came
/// out of order, as `opcode` says.
#[derive(Debug, Clone, Copy, PartialEq, Eq, Structural)]
pub struct AckPacket {
    pub opcode: u16,
    pub sequence: u16,
}

/// The acknowledgement whose sequence number stands at `pos`.
pub open spec fn ack_at(data: Seq<u8>, pos: int, opcode: u16) -> AckPacket {
    AckPacket { opcode, sequence: be_u16_at(data, pos) }
}

/// The datagram of an acknowledgement, without a checksum.
pub open spec fn ack_bytes(opcode: u16, sequence: u16) -> Seq<u8> {
    u16_be_bytes(opcode) + u16_be_bytes(sequence)
}

impl AckPacket {
    pub fn new(opcode: u16, sequence: u16) -> (packet: Self)
        ensures
            packet == (AckPacket { opcode, sequence }),
    {
        Self { opcode, sequence }
    }

    pub fn get_sequence(&self) -> (v: u16)
        ensures
            v == self.sequence,
    {
        self.sequence
    }

    /// The datagram of this packet, without a checksum.
    pub fn build(&self) -> (wtr: Vec<u8>)
        ensures
            wtr@ == ack_bytes(self.opcode, self.sequence),
    {
        let mut wtr: Vec<u8> = Vec::new();
        put_u16_be(&mut wtr, self.opcode);
        put_u16_be(&mut wtr, self.sequence);
        assert(wtr@ =~= ack_bytes(self.opcode, self.sequence));
        wtr
    }

    /// Reads the sequence number at the cursor's position.
    pub fn from(rdr: ByteCursor, opcode: u16) -> (packet: Self)
        ensures
            packet == ack_at(rdr.data@, rdr.pos as int, opcode),
    {
        let mut rdr = rdr;
        let sequence = rdr.read_u16_be();
        Self { sequence, opcode }
    }
}

/// The end of a session, with the name of the reason.
#[derive(Debug, Clone, PartialEq, Eq)]
pub struct DisconnectPacket {
    pub session_id: u32,
    pub reason: String,
}

/// The end of session whose fields stand at `pos`: the session, then the
/// number of the reason.
pub open spec fn disconnect_at(data: Seq<u8>, pos: int) -> SoePacketView {
    SoePacketView::Disconnect {
        session_id: be_u32_at(data, pos),
        reason: disconnect_reason_name(be_u16_at(data, pos_after(data, pos, 4))),
    }
}

impl DisconnectPacket {
    pub open spec fn view(&self) -> SoePacketView {
        SoePacketView::Disconnect { session_id: self.session_id, reason: self.reason@ }
    }

    pub fn new(session_id: u32, reason: String) -> (packet: Self)
        ensures
            packet.session_id == session_id,
            packet.reason == reason,
    {
        Self { session_id, reason }
    }

    pub fn get_reason(&self) -> (v: String)
        ensures
            v@ == self.reason@,
    {
        self.reason.clone()
    }

    /// A copy of the packet.
    pub fn duplicate(&self) -> (copy: Self)
        ensures
            copy@ == self@,
    {
        Self { session_id: self.session_id, reason: self.reason.clone() }
    }

    /// Reads the session and the reason from the cursor's position on.
    pub fn from(rdr: ByteCursor) -> (packet: Self)
        ensures
            packet@ == disconnect_at(rdr.data@, rdr.pos as int),
    {
        let mut rdr = rdr;
        let session_id = rdr.read_u32_be();
        let reason = disconnect_reason_to_string(rdr.read_u16_be());
        Self { session_id, reason }
    }
}

/// A keep-alive. It has no fields.
#[derive(Debug, Clone, Copy, PartialEq, Eq, Structural)]
pub struct PingPacket {}

/// The report of a fatal error, kept as the datagram that brought it.
#[derive(Debug, Clone, PartialEq, Eq)]
pub struct FatalErrorPacket {
    pub raw: Vec<u8>,
}

impl FatalErrorPacket {
    /// A report without a datagram.
    pub fn new() -> (packet: Self)
        ensures
            packet.raw@ == Seq::<u8>::empty(),
    {
        Self { raw: Vec::new() }
    }
}

/// A datagram whose opcode is not known, kept as it came.
#[derive(Debug, Clone, PartialEq, Eq)]
pub struct UnknownPacket {
    pub raw: Vec<u8>,
}

/// A packet that can travel inside a group, named by its kind.
#[derive(Debug, Clone, PartialEq, Eq)]
pub struct MultiPackablePacket {
    pub name: String,
    pub data: Option<Vec<u8>>,
    pub sequence: u16,
}

/// A sub-packet named by its kind, with the fields that its kind has.
#[derive(Debug, Clone, PartialEq, Eq)]
pub struct SubBasePacket {
    pub name: String,
    pub sequence: Option<u16>,
    pub data: Option<Vec<u8>>,
}

impl SubBasePacket {
    pub fn new(name: String, sequence: Option<u16>, data: Option<Vec<u8>>) -> (packet: Self)
        ensures
            packet.name == name,
            packet.sequence == sequence,
            packet.data == data,
    {
        Self { name, sequence, data }
    }

    pub fn get_name(&self) -> (v: String)
        ensures
            v@ == self.name@,
    {
        self.name.clone()
    }

    pub fn get_sequence(&self) -> (v: Option<u16>)
        ensures
            v == self.sequence,
    {
        self.sequence
    }

    pub fn get_data(&self) -> (v: &Option<Vec<u8>>)
        ensures
            *v == self.data,
    {
        &self.data
    }
}

/// The datagrams that a group is to carry, each as its bytes.
#[derive(Debug, Clone, PartialEq, Eq)]
pub struct SubBasePackets {
    pub sub_packets: Vec<Vec<u8>>,
}

impl SubBasePackets {
    pub fn new() -> (packets: Self)
        ensures
            packets.sub_packets@.len() == 0,
    {
        Self { sub_packets: Vec::new() }
    }

    pub fn add_sub_packet(&mut self, sub_packet: Vec<u8>)
        ensures
            final(self).sub_packets@ == old(self).sub_packets@.push(sub_packet),
    {
        self.sub_packets.push(sub_packet);
    }

    pub fn get_sub_packets(&self) -> (v: &Vec<Vec<u8>>)
        ensures
            *v == self.sub_packets,
    {
        &self.sub_packets
    }
}

/// The packets that one grouped datagram carried, in wire order. `opcode`
/// tells a multi-packet from a group.
#[derive(Debug, PartialEq, Eq)]
pub struct GroupedPackets {
    pub opcode: u16,
    pub sub_packets: Vec<SoePacket>,
}

/// A decoded datagram, or the reason why it was not decoded.
#[derive(Debug, PartialEq, Eq)]
pub enum SoePacket {
    SessionRequestPacket(SessionRequestPacket),
    SessionReplyPacket(SessionReplyPacket),
    NetStatusReplyPacket(NetStatusReplyPacket),
    DataPacket(DataPacket),
    AckPacket(AckPacket),
    NetStatusRequestPacket(NetStatusRequestPacket),
    GroupedPackets(GroupedPackets),
    PingPacket(PingPacket),
    FatalErrorPacket(FatalErrorPacket),
    DisconnectPacket(DisconnectPacket),
    UnknownPacket(UnknownPacket),
    Error(ProtocolError),
}

/// The mathematical content of a `SoePacket`.
pub enum SoePacketView {
    SessionRequest { session_id: u32, protocol_version: u32, udp_length: u32, protocol: Seq<char> },
    SessionReply(SessionReplyPacket),
    NetStatusRequest(NetStatusRequestPacket),
    NetStatusReply(NetStatusReplyPacket),
    Data { opcode: u16, sequence: u16, data: Seq<u8> },
    Ack(AckPacket),
    Grouped { opcode: u16, sub_packets: Seq<SoePacketView> },
    Ping,
    FatalError { raw: Seq<u8> },
    Disconnect { session_id: u32, reason: Seq<char> },
    Unknown { raw: Seq<u8> },
    Error(ProtocolErrorView),
}

/// The views of the packets of `packets`, in order.
pub open spec fn packet_views(packets: Seq<SoePacket>) -> Seq<SoePacketView> {
    Seq::new(packets.len(), |i: int| packets[i].view())
}

impl SoePacket {
    pub open spec fn view(&self) -> SoePacketView
        decreases self,
    {
        match self {
            SoePacket::SessionRequestPacket(p) => p.view(),
            SoePacket::SessionReplyPacket(p) => SoePacketView::SessionReply(*p),
            SoePacket::NetStatusRequestPacket(p) => SoePacketView::NetStatusRequest(*p),
            SoePacket::NetStatusReplyPacket(p) => SoePacketView::NetStatusReply(*p),
            SoePacket::DataPacket(p) => p.view(),
            SoePacket::AckPacket(p) => SoePacketView::Ack(*p),
            SoePacket::GroupedPackets(g) => SoePacketView::Grouped {
                opcode: g.opcode,
                sub_packets: Seq::new(
                    g.sub_packets@.len(),
                    |i: int|
                        if 0 <= i < g.sub_packets@.len() {
                            g.sub_packets@[i].view()
                        } else {
                            SoePacketView::Ping
                        },
                ),
            },
            SoePacket::PingPacket(_) => SoePacketView::Ping,
            SoePacket::FatalErrorPacket(p) => SoePacketView::FatalError { raw: p.raw@ },
            SoePacket::DisconnectPacket(p) => p.view(),
            SoePacket::UnknownPacket(p) => SoePacketView::Unknown { raw: p.raw@ },
            SoePacket::Error(e) => SoePacketView::Error(e@),
        }
    }

    /// The kind of datagram that this packet came as, or goes out as.
    pub fn opcode(&self) -> (opcode: SoeOpcode)
        ensures
            opcode == packet_opcode(self@),
    {
        match self {
            SoePacket::SessionRequestPacket(_) => SoeOpcode::SessionRequest,
            SoePacket::SessionReplyPacket(_) => SoeOpcode::SessionReply,
            SoePacket::NetStatusRequestPacket(_) => SoeOpcode::NetStatusRequest,
            SoePacket::NetStatusReplyPacket(_) => SoeOpcode::NetStatusReply,
            SoePacket::DataPacket(p) => SoeOpcode::from_value(p.opcode),
            SoePacket::AckPacket(p) => SoeOpcode::from_value(p.opcode),
            SoePacket::GroupedPackets(g) => SoeOpcode::from_value(g.opcode),
            SoePacket::PingPacket(_) => SoeOpcode::Ping,
            SoePacket::FatalErrorPacket(_) => SoeOpcode::FatalError,
            SoePacket::DisconnectPacket(_) => SoeOpcode::Disconnect,
            SoePacket::UnknownPacket(_) => SoeOpcode::Unknown,
            SoePacket::Error(e) => {
                let raw: &[u8] = match e {
                    ProtocolError::Size { raw, .. } => raw.as_slice(),
                    ProtocolError::Crc { raw, .. } => raw.as_slice(),
                    ProtocolError::Corruption { raw, .. } => raw.as_slice(),
                    ProtocolError::Deserializing { .. } => &[],
                };
                if raw.len() >= 2 {
                    SoeOpcode::from_value(get_u16_be(raw, 0))
                } else {
                    SoeOpcode::Unknown
                }
            },
        }
    }

    /// A copy of the packet, sub-packets included.
    pub fn duplicate(&self) -> (copy: SoePacket)
        ensures
            copy@ == self@,
        decreases self,
    {
        match self {
            SoePacket::SessionRequestPacket(p) => SoePacket::SessionRequestPacket(p.duplicate()),
            SoePacket::SessionReplyPacket(p) => SoePacket::SessionReplyPacket(*p),
            SoePacket::NetStatusRequestPacket(p) => SoePacket::NetStatusRequestPacket(*p),
            SoePacket::NetStatusReplyPacket(p) => SoePacket::NetStatusReplyPacket(*p),
            SoePacket::DataPacket(p) => SoePacket::DataPacket(p.duplicate()),
            SoePacket::AckPacket(p) => SoePacket::AckPacket(*p),
            SoePacket::GroupedPackets(g) => {
                let mut sub_packets: Vec<SoePacket> = Vec::new();
                let mut i: usize = 0;
                while i < g.sub_packets.len()
                    invariant
                        i <= g.sub_packets@.len(),
                        sub_packets@.len() == i,
                        self is GroupedPackets,
                        self->GroupedPackets_0 == *g,
                        forall|j: int|
                            0 <= j < i ==> (#[trigger] sub_packets@[j])@ == g.sub_packets@[j]@,
                    decreases g.sub_packets@.len() - i,
                {
                    sub_packets.push(g.sub_packets[i].duplicate());
                    i = i + 1;
                }
                let copy = SoePacket::GroupedPackets(
                    GroupedPackets { opcode: g.opcode, sub_packets },
                );
                assert(copy@->Grouped_sub_packets =~= self@->Grouped_sub_packets);
                copy
            },
            SoePacket::PingPacket(p) => SoePacket::PingPacket(*p),
            SoePacket::FatalErrorPacket(p) => SoePacket::FatalErrorPacket(
                FatalErrorPacket { raw: p.raw.clone() },
            ),
            SoePacket::DisconnectPacket(p) => SoePacket::DisconnectPacket(p.duplicate()),
            SoePacket::UnknownPacket(p) => SoePacket::UnknownPacket(
                UnknownPacket { raw: p.raw.clone() },
            ),
            SoePacket::Error(e) => SoePacket::Error(e.duplicate()),
        }
    }
}

impl GroupedPackets {
    pub open spec fn view(&self) -> SoePacketView {
        SoePacket::GroupedPackets(*self).view()
    }

    /// An empty multi-packet.
    pub fn new() -> (packets: Self)
        ensures
            packets.opcode == 0x03,
            packets.sub_packets@.len() == 0,
    {
        Self { opcode: 0x03, sub_packets: Vec::new() }
    }

    /// An empty grouped packet that goes out under `opcode`.
    pub fn with_opcode(opcode: u16) -> (packets: Self)
        ensures
            packets.opcode == opcode,
            packets.sub_packets@.len() == 0,
    {
        Self { opcode, sub_packets: Vec::new() }
    }

    pub fn add_packet(&mut self, packet: SoePacket)
        ensures
            final(self).opcode == old(self).opcode,
            final(self).sub_packets@ == old(self).sub_packets@.push(packet),
    {
        self.sub_packets.push(packet);
    }

    /// Copies of the sub-packets, each with its kind.
    pub fn get_packets(&self) -> (packets: Vec<SoePacketParsed>)
        ensures
            packets@.len() == self.sub_packets@.len(),
            forall|i: int|
                0 <= i < packets@.len() ==> (#[trigger] packets@[i]).packet@
                    == self.sub_packets@[i]@ && packets@[i].opcode == packet_opcode(
                    self.sub_packets@[i]@,
                ),
    {
        let mut packets: Vec<SoePacketParsed> = Vec::new();
        let mut i: usize = 0;
        while i < self.sub_packets.len()
            invariant
                i <= self.sub_packets@.len(),
                packets@.len() == i,
                forall|j: int|
                    0 <= j < i ==> (#[trigger] packets@[j]).packet@ == self.sub_packets@[j]@
                        && packets@[j].opcode == packet_opcode(self.sub_packets@[j]@),
            decreases self.sub_packets@.len() - i,
        {
            let packet = self.sub_packets[i].duplicate();
            let opcode = packet.opcode();
            packets.push(SoePacketParsed::new(opcode, packet));
            i = i + 1;
        }
        packets
    }
}

/// A decoded datagram together with its kind.
#[derive(Debug, PartialEq, Eq)]
pub struct SoePacketParsed {
    pub opcode: SoeOpcode,
    pub packet: SoePacket,
}

impl SoePacketParsed {
    pub fn new(opcode: SoeOpcode, packet: SoePacket) -> (parsed: Self)
        ensures
            parsed.opcode == opcode,
            parsed.packet == packet,
    {
        Self { opcode, packet }
    }

    pub fn get_opcode(&self) -> (opcode: SoeOpcode)
        ensures
            opcode == self.opcode,
    {
        self.opcode
    }

    /// A copy of the packet.
    pub fn get_packet(&self) -> (packet: SoePacket)
        ensures
            packet@ == self.packet@,
    {
        self.packet.duplicate()
    }

    /// The packet, or the error where the datagram did not decode.
    pub fn into_result(self) -> (result: Result<SoePacket, ProtocolError>)
        ensures
            result is Err <==> self.packet is Error,
            result is Err ==> result->Err_0 == self.packet->Error_0,
            result is Ok ==> result->Ok_0 == self.packet,
    {
        match self.packet {
            SoePacket::Error(error) => Err(error),
            packet => Ok(packet),
        }
    }

    /// The session request, where the packet is one.
    pub fn get_session_request_packet(&self) -> (packet: Option<SessionRequestPacket>)
        ensures
            packet is Some <==> self.packet is SessionRequestPacket,
            packet is Some ==> packet->0@ == self.packet@,
    {
        match &self.packet {
            SoePacket::SessionRequestPacket(packet) => Some(packet.duplicate()),
            _ => None,
        }
    }

    /// The session reply, where the packet is one.
    pub fn get_session_reply_packet(self) -> (packet: Option<SessionReplyPacket>)
        ensures
            packet is Some <==> self.packet is SessionReplyPacket,
            packet is Some ==> packet->0 == self.packet->SessionReplyPacket_0,
    {
        match self.packet {
            SoePacket::SessionReplyPacket(packet) => Some(packet),
            _ => None,
        }
    }

    /// The server's statistics, where the packet holds them.
    pub fn get_net_status_reply_packet(&self) -> (packet: Option<NetStatusReplyPacket>)
        ensures
            packet is Some <==> self.packet is NetStatusReplyPacket,
            packet is Some ==> packet->0 == self.packet->NetStatusReplyPacket_0,
    {
        match &self.packet {
            SoePacket::NetStatusReplyPacket(packet) => Some(*packet),
            _ => None,
        }
    }

    /// The client's statistics, where the packet holds them.
    pub fn get_net_status_request_packet(&self) -> (packet: Option<NetStatusRequestPacket>)
        ensures
            packet is Some <==> self.packet is NetStatusRequestPacket,
            packet is Some ==> packet->0 == self.packet->NetStatusRequestPacket_0,
    {
        match &self.packet {
            SoePacket::NetStatusRequestPacket(packet) => Some(*packet),
            _ => None,
        }
    }

    /// The sequenced payload, where the packet is one.
    pub fn get_data_packet(&self) -> (packet: Option<DataPacket>)
        ensures
            packet is Some <==> self.packet is DataPacket,
            packet is Some ==> packet->0@ == self.packet@,
    {
        match &self.packet {
            SoePacket::DataPacket(packet) => Some(packet.duplicate()),
            _ => None,
        }
    }

    /// The acknowledgement, where the packet is one.
    pub fn get_ack_packet(&self) -> (packet: Option<AckPacket>)
        ensures
            packet is Some <==> self.packet is AckPacket,
            packet is Some ==> packet->0 == self.packet->AckPacket_0,
    {
        match &self.packet {
            SoePacket::AckPacket(packet) => Some(*packet),
            _ => None,
        }
    }

    /// The sub-packets, where the packet is a group of them.
    pub fn get_grouped_packets(&self) -> (packet: Option<GroupedPackets>)
        ensures
            packet is Some <==> self.packet is GroupedPackets,
            packet is Some ==> packet->0@ == self.packet@,
    {
        match self.packet.duplicate() {
            SoePacket::GroupedPackets(packet) => Some(packet),
            _ => None,
        }
    }

    /// The raw datagram, where its opcode was not known.
    pub fn get_unknown_packet(&self) -> (packet: Option<UnknownPacket>)
        ensures
            packet is Some <==> self.packet is UnknownPacket,
            packet is Some ==> packet->0.raw@ == self.packet->UnknownPacket_0.raw@,
    {
        match &self.packet {
            SoePacket::UnknownPacket(packet) => Some(UnknownPacket { raw: packet.raw.clone() }),
            _ => None,
        }
    }
}

} // verus!
