//! Decoded SOE datagrams as JSON text, for callers that pass records across
//! a language boundary.

use crate::protocol_errors::{
    byte_list_text, decimal_text, error_json, push_byte_list, push_decimal,
};
use crate::soeprotocol_packets_structs::{
    NetStatusReplyPacket, NetStatusRequestPacket, SessionReplyPacket, SoePacket, SoePacketParsed,
    SoePacketView,
};
use vstd::prelude::*;
use vstd::string::StringExecFns;

verus! {

/// The name under which a sequenced payload is reported.
pub open spec fn data_name(opcode: u16) -> Seq<char> {
    if opcode == 0x1B {
        "Ordered"@
    } else if opcode == 0x09 {
        "Data"@
    } else {
        "DataFragment"@
    }
}

/// The key under which the sequence number of a sequenced payload is
/// reported.
pub open spec fn data_sequence_key(opcode: u16) -> Seq<char> {
    if opcode == 0x1B {
        "order"@
    } else {
        "sequence"@
    }
}

/// The name under which an acknowledgement is reported.
pub open spec fn ack_name(opcode: u16) -> Seq<char> {
    if opcode == 0x15 {
        "Ack"@
    } else {
        "OutOfOrder"@
    }
}

/// The JSON object of a session reply.
pub open spec fn session_reply_json(p: SessionReplyPacket) -> Seq<char> {
    "{\"name\":\"SessionReply\",\"session_id\":"@ + decimal_text(p.session_id as nat)
        + ",\"crc_seed\":"@ + decimal_text(p.crc_seed as nat) + ",\"crc_length\":"@ + decimal_text(
        p.crc_length as nat,
    ) + ",\"encrypt_method\":"@ + decimal_text(p.encrypt_method as nat) + ",\"udp_length\":"@
        + decimal_text(p.udp_length as nat) + "}"@
}

/// The JSON object of a client's statistics.
pub open spec fn net_status_request_json(p: NetStatusRequestPacket) -> Seq<char> {
    "{\"name\":\"NetStatusRequest\",\"client_tick_count\":"@ + decimal_text(
        p.client_tick_count as nat,
    ) + ",\"last_client_update\":"@ + decimal_text(p.last_client_update as nat)
        + ",\"average_update\":"@ + decimal_text(p.average_update as nat)
        + ",\"shortest_update\":"@ + decimal_text(p.shortest_update as nat)
        + ",\"longest_update\":"@ + decimal_text(p.longest_update as nat)
        + ",\"last_server_update\":"@ + decimal_text(p.last_server_update as nat)
        + ",\"packets_sent\":"@ + decimal_text(p.packets_sent as nat) + ",\"packets_received\":"@
        + decimal_text(p.packets_received as nat) + ",\"unknown_field\":"@ + decimal_text(
        p.unknown_field as nat,
    ) + "}"@
}

/// The JSON object of a server's statistics.
pub open spec fn net_status_reply_json(p: NetStatusReplyPacket) -> Seq<char> {
    "{\"name\":\"NetStatusReply\",\"client_tick_count\":"@ + decimal_text(
        p.client_tick_count as nat,
    ) + ",\"server_tick_count\":"@ + decimal_text(p.server_tick_count as nat)
        + ",\"client_packet_sent\":"@ + decimal_text(p.client_packet_sent as nat)
        + ",\"client_packet_received\":"@ + decimal_text(p.client_packet_received as nat)
        + ",\"server_packet_sent\":"@ + decimal_text(p.server_packet_sent as nat)
        + ",\"server_packet_received\":"@ + decimal_text(p.server_packet_received as nat)
        + ",\"unknown_field\":"@ + decimal_text(p.unknown_field as nat) + "}"@
}

/// The JSON object of the record `p`. Text fields stand between quotes as
/// they are, without escapes.
pub open spec fn packet_json(p: SoePacketView) -> Seq<char>
    decreases p,
{
    match p {
        SoePacketView::SessionRequest { session_id, protocol_version, udp_length, protocol } => {
            "{\"name\":\"SessionRequest\",\"protocol_version\":"@ + decimal_text(
                protocol_version as nat,
            ) + ",\"session_id\":"@ + decimal_text(session_id as nat) + ",\"udp_length\":"@
                + decimal_text(udp_length as nat) + ",\"protocol\":\""@ + protocol + "\"}"@
        },
        SoePacketView::SessionReply(r) => session_reply_json(r),
        SoePacketView::NetStatusRequest(r) => net_status_request_json(r),
        SoePacketView::NetStatusReply(r) => net_status_reply_json(r),
        SoePacketView::Data { opcode, sequence, data } => {
            "{\"name\":\""@ + data_name(opcode) + "\",\""@ + data_sequence_key(opcode) + "\":"@
                + decimal_text(sequence as nat) + ",\"data\":"@ + byte_list_text(data) + "}"@
        },
        SoePacketView::Ack(a) => {
            "{\"name\":\""@ + ack_name(a.opcode) + "\",\"sequence\":"@ + decimal_text(
                a.sequence as nat,
            ) + "}"@
        },
        SoePacketView::Grouped { sub_packets, .. } => {
            "{\"name\": \"MultiPacket\",\"sub_packets\":[ "@ + packets_json(sub_packets) + "]}"@
        },
        SoePacketView::Ping => "{\"name\":\"Ping\"}"@,
        SoePacketView::FatalError { raw } => {
            "{\"name\":\"FatalError\",\"raw\":"@ + byte_list_text(raw) + "}"@
        },
        SoePacketView::Disconnect { session_id, reason } => {
            "{\"name\":\"Disconnect\" ,\"session_id\":"@ + decimal_text(session_id as nat)
                + ",\"reason\":\""@ + reason + "\"}"@
        },
        SoePacketView::Unknown { raw } => {
            "{\"name\":\"Unknown\",\"raw\":"@ + byte_list_text(raw) + "}"@
        },
        SoePacketView::Error(e) => error_json(e),
    }
}

/// The JSON objects of the records `subs`, with a comma between every two.
pub open spec fn packets_json(subs: Seq<SoePacketView>) -> Seq<char>
    decreases subs,
{
    if subs.len() == 0 {
        Seq::empty()
    } else if subs.len() == 1 {
        packet_json(subs[0])
    } else {
        packets_json(subs.drop_last()) + ","@ + packet_json(subs.last())
    }
}

/// Appends the name under which a sequenced payload is reported.
fn push_data_name(text: &mut String, opcode: u16)
    ensures
        final(text)@ == old(text)@ + data_name(opcode),
{
    if opcode == 0x1B {
        text.append("Ordered");
    } else if opcode == 0x09 {
        text.append("Data");
    } else {
        text.append("DataFragment");
    }
}

/// Appends the key of the sequence number of a sequenced payload.
fn push_data_sequence_key(text: &mut String, opcode: u16)
    ensures
        final(text)@ == old(text)@ + data_sequence_key(opcode),
{
    if opcode == 0x1B {
        text.append("order");
    } else {
        text.append("sequence");
    }
}

/// Appends the name under which an acknowledgement is reported.
fn push_ack_name(text: &mut String, opcode: u16)
    ensures
        final(text)@ == old(text)@ + ack_name(opcode),
{
    if opcode == 0x15 {
        text.append("Ack");
    } else {
        text.append("OutOfOrder");
    }
}

impl SessionReplyPacket {
    /// The JSON object of this reply.
    pub fn to_json(&self) -> (json: String)
        ensures
            json@ == session_reply_json(*self),
    {
        let mut json = String::new();
        json.append("{\"name\":\"SessionReply\",\"session_id\":");
        push_decimal(&mut json, self.session_id as u64);
        json.append(",\"crc_seed\":");
        push_decimal(&mut json, self.crc_seed as u64);
        json.append(",\"crc_length\":");
        push_decimal(&mut json, self.crc_length as u64);
        json.append(",\"encrypt_method\":");
        push_decimal(&mut json, self.encrypt_method as u64);
        json.append(",\"udp_length\":");
        push_decimal(&mut json, self.udp_length as u64);
        json.append("}");
        assert(json@ =~= session_reply_json(*self));
        json
    }
}

impl NetStatusRequestPacket {
    /// The JSON object of these statistics.
    pub fn to_json(&self) -> (json: String)
        ensures
            json@ == net_status_request_json(*self),
    {
        let mut json = String::new();
        json.append("{\"name\":\"NetStatusRequest\",\"client_tick_count\":");
        push_decimal(&mut json, self.client_tick_count as u64);
        json.append(",\"last_client_update\":");
        push_decimal(&mut json, self.last_client_update as u64);
        json.append(",\"average_update\":");
        push_decimal(&mut json, self.average_update as u64);
        json.append(",\"shortest_update\":");
        push_decimal(&mut json, self.shortest_update as u64);
        json.append(",\"longest_update\":");
        push_decimal(&mut json, self.longest_update as u64);
        json.append(",\"last_server_update\":");
        push_decimal(&mut json, self.last_server_update as u64);
        json.append(",\"packets_sent\":");
        push_decimal(&mut json, self.packets_sent);
        json.append(",\"packets_received\":");
        push_decimal(&mut json, self.packets_received);
        json.append(",\"unknown_field\":");
        push_decimal(&mut json, self.unknown_field as u64);
        json.append("}");
        assert(json@ =~= net_status_request_json(*self));
        json
    }
}

impl NetStatusReplyPacket {
    /// The JSON object of these statistics.
    pub fn to_json(&self) -> (json: String)
        ensures
            json@ == net_status_reply_json(*self),
    {
        let mut json = String::new();
        json.append("{\"name\":\"NetStatusReply\",\"client_tick_count\":");
        push_decimal(&mut json, self.client_tick_count as u64);
        json.append(",\"server_tick_count\":");
        push_decimal(&mut json, self.server_tick_count as u64);
        json.append(",\"client_packet_sent\":");
        push_decimal(&mut json, self.client_packet_sent);
        json.append(",\"client_packet_received\":");
        push_decimal(&mut json, self.client_packet_received);
        json.append(",\"server_packet_sent\":");
        push_decimal(&mut json, self.server_packet_sent);
        json.append(",\"server_packet_received\":");
        push_decimal(&mut json, self.server_packet_received);
        json.append(",\"unknown_field\":");
        push_decimal(&mut json, self.unknown_field as u64);
        json.append("}");
        assert(json@ =~= net_status_reply_json(*self));
        json
    }
}

impl SoePacket {
    /// The JSON object of this packet.
    pub fn to_json(&self) -> (json: String)
        ensures
            json@ == packet_json(self@),
        decreases self,
    {
        match self {
            SoePacket::SessionRequestPacket(p) => {
                let mut json = String::new();
                json.append("{\"name\":\"SessionRequest\",\"protocol_version\":");
                push_decimal(&mut json, p.protocol_version as u64);
                json.append(",\"session_id\":");
                push_decimal(&mut json, p.session_id as u64);
                json.append(",\"udp_length\":");
                push_decimal(&mut json, p.udp_length as u64);
                json.append(",\"protocol\":\"");
                json.append(p.protocol.as_str());
                json.append("\"}");
                assert(json@ =~= packet_json(self@));
                json
            },
            SoePacket::SessionReplyPacket(p) => p.to_json(),
            SoePacket::NetStatusRequestPacket(p) => p.to_json(),
            SoePacket::NetStatusReplyPacket(p) => p.to_json(),
            SoePacket::DataPacket(p) => {
                let mut json = String::new();
                json.append("{\"name\":\"");
                push_data_name(&mut json, p.opcode);
                json.append("\",\"");
                push_data_sequence_key(&mut json, p.opcode);
                json.append("\":");
                push_decimal(&mut json, p.sequence as u64);
                json.append(",\"data\":");
                push_byte_list(&mut json, &p.data);
                json.append("}");
                assert(json@ =~= packet_json(self@));
                json
            },
            SoePacket::AckPacket(p) => {
                let mut json = String::new();
                json.append("{\"name\":\"");
                push_ack_name(&mut json, p.opcode);
                json.append("\",\"sequence\":");
                push_decimal(&mut json, p.sequence as u64);
                json.append("}");
                assert(json@ =~= packet_json(self@));
                json
            },
            SoePacket::GroupedPackets(g) => {
                let ghost subs = self@->Grouped_sub_packets;
                let mut json = String::new();
                json.append("{\"name\": \"MultiPacket\",\"sub_packets\":[ ");
                let ghost start = json@;
                let mut i: usize = 0;
                assert(subs.take(0) =~= Seq::<SoePacketView>::empty());
                assert(json@ =~= start + packets_json(subs.take(0)));
                while i < g.sub_packets.len()
                    invariant
                        i <= g.sub_packets@.len(),
                        self is GroupedPackets,
                        self->GroupedPackets_0 == *g,
                        subs == self@->Grouped_sub_packets,
                        json@ == start + packets_json(subs.take(i as int)),
                    decreases g.sub_packets@.len() - i,
                {
                    let ghost items = packets_json(subs.take(i as int));
                    if i > 0 {
                        json.append(",");
                    }
                    let sub = g.sub_packets[i].to_json();
                    json.append(sub.as_str());
                    proof {
                        let now = subs.take(i + 1);
                        assert(now.drop_last() =~= subs.take(i as int));
                        assert(now.last() == g.sub_packets@[i as int]@);
                        if i == 0 {
                            assert(items =~= Seq::<char>::empty());
                            assert(now[0] == now.last());
                        }
                        assert(json@ =~= start + packets_json(now));
                    }
                    i = i + 1;
                }
                assert(subs.take(i as int) =~= subs);
                json.append("]}");
                assert(json@ =~= packet_json(self@));
                json
            },
            SoePacket::PingPacket(_) => {
                let mut json = String::new();
                json.append("{\"name\":\"Ping\"}");
                assert(json@ =~= packet_json(self@));
                json
            },
            SoePacket::FatalErrorPacket(p) => {
                let mut json = String::new();
                json.append("{\"name\":\"FatalError\",\"raw\":");
                push_byte_list(&mut json, &p.raw);
                json.append("}");
                assert(json@ =~= packet_json(self@));
                json
            },
            SoePacket::DisconnectPacket(p) => {
                let mut json = String::new();
                json.append("{\"name\":\"Disconnect\" ,\"session_id\":");
                push_decimal(&mut json, p.session_id as u64);
                json.append(",\"reason\":\"");
                json.append(p.reason.as_str());
                json.append("\"}");
                assert(json@ =~= packet_json(self@));
                json
            },
            SoePacket::UnknownPacket(p) => {
                let mut json = String::new();
                json.append("{\"name\":\"Unknown\",\"raw\":");
                push_byte_list(&mut json, &p.raw);
                json.append("}");
                assert(json@ =~= packet_json(self@));
                json
            },
            SoePacket::Error(e) => e.to_json(),
        }
    }
}

impl SoePacketParsed {
    /// The JSON object of the packet.
    pub fn to_json(&self) -> (json: String)
        ensures
            json@ == packet_json(self.packet@),
    {
        self.packet.to_json()
    }
}

} // verus!
