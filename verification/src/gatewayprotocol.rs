//! The gateway codec: the frames that ride on SOE data payloads.

use crate::byte_cursor::{u8_at, ByteCursor};
use crate::gatewayprotocol_packets_structs::{
    channel_is_routable_at, login_reply_at, login_request_at, tunnel_of, ChannelIsNotRoutablePacket,
    ChannelIsRoutablePacket, ForceDisconnectPacket, GatewayPacket, GatewayPacketParsed,
    GatewayPacketView, LoginReplyPacket, LoginRequestPacket, LogoutPacket, TunnelPacket,
    UnknownGatewayPacket,
};
use vstd::prelude::*;

verus! {

/// The kinds of gateway frame.
#[derive(Debug, Clone, Copy, PartialEq, Eq, Structural)]
pub enum GatewayOpcode {
    LoginRequest,
    LoginReply,
    Logout,
    ForceDisconnect,
    TunnelDataClient,
    TunnelDataServer,
    ChannelIsRoutable,
    ChannelIsNotRoutable,
    Unknown,
}

impl GatewayOpcode {
    /// The five-bit number that stands for the kind in a frame's header.
    pub open spec fn spec_value(self) -> u8 {
        match self {
            GatewayOpcode::LoginRequest => 0x01,
            GatewayOpcode::LoginReply => 0x02,
            GatewayOpcode::Logout => 0x03,
            GatewayOpcode::ForceDisconnect => 0x04,
            GatewayOpcode::TunnelDataClient => 0x05,
            GatewayOpcode::TunnelDataServer => 0x06,
            GatewayOpcode::ChannelIsRoutable => 0x07,
            GatewayOpcode::ChannelIsNotRoutable => 0x08,
            GatewayOpcode::Unknown => 0x00,
        }
    }

    /// The five-bit number that stands for the kind in a frame's header.
    #[verifier::when_used_as_spec(spec_value)]
    pub fn value(self) -> (v: u8)
        ensures
            v == self.spec_value(),
    {
        match self {
            GatewayOpcode::LoginRequest => 0x01,
            GatewayOpcode::LoginReply => 0x02,
            GatewayOpcode::Logout => 0x03,
            GatewayOpcode::ForceDisconnect => 0x04,
            GatewayOpcode::TunnelDataClient => 0x05,
            GatewayOpcode::TunnelDataServer => 0x06,
            GatewayOpcode::ChannelIsRoutable => 0x07,
            GatewayOpcode::ChannelIsNotRoutable => 0x08,
            GatewayOpcode::Unknown => 0x00,
        }
    }

    /// The kind that the number `value` stands for; `Unknown` for a number
    /// that stands for none.
    pub open spec fn spec_from_value(value: u8) -> GatewayOpcode {
        if value == 0x01 {
            GatewayOpcode::LoginRequest
        } else if value == 0x02 {
            GatewayOpcode::LoginReply
        } else if value == 0x03 {
            GatewayOpcode::Logout
        } else if value == 0x04 {
            GatewayOpcode::ForceDisconnect
        } else if value == 0x05 {
            GatewayOpcode::TunnelDataClient
        } else if value == 0x06 {
            GatewayOpcode::TunnelDataServer
        } else if value == 0x07 {
            GatewayOpcode::ChannelIsRoutable
        } else if value == 0x08 {
            GatewayOpcode::ChannelIsNotRoutable
        } else {
            GatewayOpcode::Unknown
        }
    }

    /// The kind that the number `value` stands for.
    #[verifier::when_used_as_spec(spec_from_value)]
    pub fn from_value(value: u8) -> (opcode: GatewayOpcode)
        ensures
            opcode == GatewayOpcode::spec_from_value(value),
    {
        match value {
            0x01 => GatewayOpcode::LoginRequest,
            0x02 => GatewayOpcode::LoginReply,
            0x03 => GatewayOpcode::Logout,
            0x04 => GatewayOpcode::ForceDisconnect,
            0x05 => GatewayOpcode::TunnelDataClient,
            0x06 => GatewayOpcode::TunnelDataServer,
            0x07 => GatewayOpcode::ChannelIsRoutable,
            0x08 => GatewayOpcode::ChannelIsNotRoutable,
            _ => GatewayOpcode::Unknown,
        }
    }
}

/// The routing channels that a frame's header can name.
#[derive(Debug, Clone, Copy, PartialEq, Eq, Structural)]
pub enum GatewayChannels {
    Zone,
    World,
    UpdatePosition,
    ShortCircuitZone,
    Gateway,
}

impl GatewayChannels {
    /// The three-bit number that stands for the channel in a frame's header.
    pub open spec fn spec_value(self) -> u8 {
        match self {
            GatewayChannels::Zone => 0,
            GatewayChannels::World => 1,
            GatewayChannels::UpdatePosition => 2,
            GatewayChannels::ShortCircuitZone => 3,
            GatewayChannels::Gateway => 4,
        }
    }

    /// The three-bit number that stands for the channel in a frame's header.
    #[verifier::when_used_as_spec(spec_value)]
    pub fn value(self) -> (v: u8)
        ensures
            v == self.spec_value(),
    {
        match self {
            GatewayChannels::Zone => 0,
            GatewayChannels::World => 1,
            GatewayChannels::UpdatePosition => 2,
            GatewayChannels::ShortCircuitZone => 3,
            GatewayChannels::Gateway => 4,
        }
    }
}

/// The header byte of a frame: its first byte, or zero for an empty frame.
pub open spec fn frame_header(data: Seq<u8>) -> u8 {
    u8_at(data, 0)
}

/// The opcode that a header byte names: its low five bits.
pub open spec fn header_opcode(header: u8) -> GatewayOpcode {
    GatewayOpcode::spec_from_value(header & 0x1f)
}

/// The channel that a header byte names: its high three bits.
pub open spec fn header_channel(header: u8) -> u8 {
    header >> 5
}

/// The kind of the frame `data`.
pub open spec fn frame_opcode(data: Seq<u8>) -> GatewayOpcode {
    header_opcode(frame_header(data))
}

/// The record of the frame `data`.
pub open spec fn gateway_parse(data: Seq<u8>) -> GatewayPacketView {
    match frame_opcode(data) {
        GatewayOpcode::Unknown => GatewayPacketView::Unknown {
            channel: header_channel(frame_header(data)),
            raw: data,
        },
        GatewayOpcode::LoginRequest => login_request_at(data, 1),
        GatewayOpcode::LoginReply => GatewayPacketView::LoginReply(login_reply_at(data, 1)),
        GatewayOpcode::Logout => GatewayPacketView::Logout,
        GatewayOpcode::ForceDisconnect => GatewayPacketView::ForceDisconnect,
        GatewayOpcode::TunnelDataClient => tunnel_of(data),
        GatewayOpcode::TunnelDataServer => tunnel_of(data),
        GatewayOpcode::ChannelIsRoutable => GatewayPacketView::ChannelIsRoutable(
            channel_is_routable_at(data, 1),
        ),
        GatewayOpcode::ChannelIsNotRoutable => GatewayPacketView::ChannelIsNotRoutable,
    }
}

/// The gateway codec. It holds no settings.
#[derive(Debug, Clone, Copy, PartialEq, Eq, Structural)]
pub struct GatewayProtocol {}

impl GatewayProtocol {
    /// A gateway codec.
    pub fn initialize() -> (codec: GatewayProtocol) {
        GatewayProtocol {  }
    }

    /// The kind that the number `opcode` stands for.
    pub fn get_opcode(&mut self, opcode: u8) -> (kind: GatewayOpcode)
        ensures
            kind == GatewayOpcode::spec_from_value(opcode),
    {
        GatewayOpcode::from_value(opcode)
    }

    /// Decodes one frame.
    pub fn parse(&mut self, data: Vec<u8>) -> (parsed: GatewayPacketParsed)
        ensures
            parsed.opcode == frame_opcode(data@),
            parsed.packet@ == gateway_parse(data@),
    {
        let mut rdr = ByteCursor::new(&data);
        let full_opcode = rdr.read_u8();
        let opcode = full_opcode & 0x1f;
        let channel = full_opcode >> 5;
        let gateway_opcode = self.get_opcode(opcode);
        let packet = match gateway_opcode {
            GatewayOpcode::Unknown => GatewayPacket::Unknown(
                UnknownGatewayPacket { channel, raw: data.clone() },
            ),
            GatewayOpcode::LoginRequest => GatewayPacket::LoginRequest(
                LoginRequestPacket::from(rdr),
            ),
            GatewayOpcode::LoginReply => GatewayPacket::LoginReply(LoginReplyPacket::from(rdr)),
            GatewayOpcode::Logout => GatewayPacket::Logout(LogoutPacket::from(rdr)),
            GatewayOpcode::ForceDisconnect => GatewayPacket::ForceDisconnect(
                ForceDisconnectPacket::from(rdr),
            ),
            GatewayOpcode::TunnelDataClient => {
                assert(full_opcode & 0x1f != 0 ==> full_opcode != 0) by (bit_vector);
                GatewayPacket::Tunnel(TunnelPacket::from(data))
            },
            GatewayOpcode::TunnelDataServer => {
                assert(full_opcode & 0x1f != 0 ==> full_opcode != 0) by (bit_vector);
                GatewayPacket::Tunnel(TunnelPacket::from(data))
            },
            GatewayOpcode::ChannelIsRoutable => GatewayPacket::ChannelIsRoutable(
                ChannelIsRoutablePacket::from(rdr),
            ),
            GatewayOpcode::ChannelIsNotRoutable => GatewayPacket::ChannelIsNotRoutable(
                ChannelIsNotRoutablePacket::from(rdr),
            ),
        };
        GatewayPacketParsed::new(gateway_opcode, packet)
    }
}

} // verus!
