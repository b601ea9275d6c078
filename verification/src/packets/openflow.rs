//! A read/write wrapper around an OpenFlow packet buffer.
//!
//! ```text
//! +--------+--------+--------+--------+
//! |version |  type  |     length      |
//! +--------+--------+--------+--------+
//! |                xid                |
//! +--------+--------+--------+--------+
//! |              payload              |
//! +--------+--------+--------+--------+
//! ```
//!
//! The length field counts the whole message, header included; the xid
//! matches requests to responses.

use vstd::prelude::*;

use crate::packets::error;
use crate::packets::features_reply;
use crate::packets::get_config_reply;
use crate::packets::hello;
use crate::packets::packet_in;
use crate::packets::set_config;
use crate::wire;
use crate::Error;
use crate::Repr;

verus! {

/// An OpenFlow protocol version.
#[derive(Debug, PartialEq, Eq, Clone, Copy)]
pub enum Version {
    /// OpenFlow 1.0.
    OpenFlow1Dot0,
    /// OpenFlow 1.1.
    OpenFlow1Dot1,
    /// OpenFlow 1.2.
    OpenFlow1Dot2,
    /// OpenFlow 1.3.
    OpenFlow1Dot3,
    /// OpenFlow 1.4.
    OpenFlow1Dot4,
    /// OpenFlow 1.5.
    OpenFlow1Dot5,
    /// OpenFlow 1.6.
    OpenFlow1Dot6,
    /// Any other wire value.
    _Unknown(u8),
}

impl Version {
    pub open spec fn spec_from_u8(value: u8) -> Self {
        if value == 1 {
            Version::OpenFlow1Dot0
        } else if value == 2 {
            Version::OpenFlow1Dot1
        } else if value == 3 {
            Version::OpenFlow1Dot2
        } else if value == 4 {
            Version::OpenFlow1Dot3
        } else if value == 5 {
            Version::OpenFlow1Dot4
        } else if value == 6 {
            Version::OpenFlow1Dot5
        } else if value == 7 {
            Version::OpenFlow1Dot6
        } else {
            Version::_Unknown(value)
        }
    }

    pub open spec fn spec_to_u8(self) -> u8 {
        match self {
            Version::OpenFlow1Dot0 => 1u8,
            Version::OpenFlow1Dot1 => 2u8,
            Version::OpenFlow1Dot2 => 3u8,
            Version::OpenFlow1Dot3 => 4u8,
            Version::OpenFlow1Dot4 => 5u8,
            Version::OpenFlow1Dot5 => 6u8,
            Version::OpenFlow1Dot6 => 7u8,
            Version::_Unknown(v) => v,
        }
    }

    /// The version designated by a wire byte.
    pub fn from_u8(value: u8) -> (r: Self)
        ensures
            r == Version::spec_from_u8(value),
    {
        match value {
            1 => Version::OpenFlow1Dot0,
            2 => Version::OpenFlow1Dot1,
            3 => Version::OpenFlow1Dot2,
            4 => Version::OpenFlow1Dot3,
            5 => Version::OpenFlow1Dot4,
            6 => Version::OpenFlow1Dot5,
            7 => Version::OpenFlow1Dot6,
            v => Version::_Unknown(v),
        }
    }

    /// The wire byte of this version.
    pub fn to_u8(self) -> (r: u8)
        ensures
            r == self.spec_to_u8(),
    {
        match self {
            Version::OpenFlow1Dot0 => 1,
            Version::OpenFlow1Dot1 => 2,
            Version::OpenFlow1Dot2 => 3,
            Version::OpenFlow1Dot3 => 4,
            Version::OpenFlow1Dot4 => 5,
            Version::OpenFlow1Dot5 => 6,
            Version::OpenFlow1Dot6 => 7,
            Version::_Unknown(v) => v,
        }
    }
}

/// The kind of an OpenFlow message.
#[derive(Debug, PartialEq, Eq, Clone, Copy)]
pub enum Kind {
    Hello,
    Error,
    EchoRequest,
    EchoReply,
    Experimenter,
    FeaturesRequest,
    FeaturesReply,
    GetConfigRequest,
    GetConfigReply,
    SetConfig,
    PacketIn,
    FlowRemoved,
    PortStatus,
    PacketOut,
    FlowMod,
    GroupMod,
    PortMod,
    TableMod,
    MultipartRequest,
    MultipartReply,
    BarrierRequest,
    BarrierReply,
    RoleRequest,
    RoleReply,
    GetAsynRequest,
    GetAsyncReply,
    SetAsync,
    MeterMod,
    RoleStatus,
    TableStatus,
    RequestForward,
    BundleControler,
    BundleAddMessage,
    /// Any other wire value.
    _Unknown(u8),
}

impl Kind {
    pub open spec fn spec_from_u8(value: u8) -> Self {
        if value == 0 {
            Kind::Hello
        } else if value == 1 {
            Kind::Error
        } else if value == 2 {
            Kind::EchoRequest
        } else if value == 3 {
            Kind::EchoReply
        } else if value == 4 {
            Kind::Experimenter
        } else if value == 5 {
            Kind::FeaturesRequest
        } else if value == 6 {
            Kind::FeaturesReply
        } else if value == 7 {
            Kind::GetConfigRequest
        } else if value == 8 {
            Kind::GetConfigReply
        } else if value == 9 {
            Kind::SetConfig
        } else if value == 10 {
            Kind::PacketIn
        } else if value == 11 {
            Kind::FlowRemoved
        } else if value == 12 {
            Kind::PortStatus
        } else if value == 13 {
            Kind::PacketOut
        } else if value == 14 {
            Kind::FlowMod
        } else if value == 15 {
            Kind::GroupMod
        } else if value == 16 {
            Kind::PortMod
        } else if value == 17 {
            Kind::TableMod
        } else if value == 18 {
            Kind::MultipartRequest
        } else if value == 19 {
            Kind::MultipartReply
        } else if value == 20 {
            Kind::BarrierRequest
        } else if value == 21 {
            Kind::BarrierReply
        } else if value == 24 {
            Kind::RoleRequest
        } else if value == 25 {
            Kind::RoleReply
        } else if value == 26 {
            Kind::GetAsynRequest
        } else if value == 27 {
            Kind::GetAsyncReply
        } else if value == 28 {
            Kind::SetAsync
        } else if value == 29 {
            Kind::MeterMod
        } else if value == 30 {
            Kind::RoleStatus
        } else if value == 31 {
            Kind::TableStatus
        } else if value == 32 {
            Kind::RequestForward
        } else if value == 33 {
            Kind::BundleControler
        } else if value == 34 {
            Kind::BundleAddMessage
        } else {
            Kind::_Unknown(value)
        }
    }

    pub open spec fn spec_to_u8(self) -> u8 {
        match self {
            Kind::Hello => 0u8,
            Kind::Error => 1u8,
            Kind::EchoRequest => 2u8,
            Kind::EchoReply => 3u8,
            Kind::Experimenter => 4u8,
            Kind::FeaturesRequest => 5u8,
            Kind::FeaturesReply => 6u8,
            Kind::GetConfigRequest => 7u8,
            Kind::GetConfigReply => 8u8,
            Kind::SetConfig => 9u8,
            Kind::PacketIn => 10u8,
            Kind::FlowRemoved => 11u8,
            Kind::PortStatus => 12u8,
            Kind::PacketOut => 13u8,
            Kind::FlowMod => 14u8,
            Kind::GroupMod => 15u8,
            Kind::PortMod => 16u8,
            Kind::TableMod => 17u8,
            Kind::MultipartRequest => 18u8,
            Kind::MultipartReply => 19u8,
            Kind::BarrierRequest => 20u8,
            Kind::BarrierReply => 21u8,
            Kind::RoleRequest => 24u8,
            Kind::RoleReply => 25u8,
            Kind::GetAsynRequest => 26u8,
            Kind::GetAsyncReply => 27u8,
            Kind::SetAsync => 28u8,
            Kind::MeterMod => 29u8,
            Kind::RoleStatus => 30u8,
            Kind::TableStatus => 31u8,
            Kind::RequestForward => 32u8,
            Kind::BundleControler => 33u8,
            Kind::BundleAddMessage => 34u8,
            Kind::_Unknown(k) => k,
        }
    }

    /// The message kind designated by a wire byte.
    pub fn from_u8(value: u8) -> (r: Self)
        ensures
            r == Kind::spec_from_u8(value),
    {
        match value {
            0 => Kind::Hello,
            1 => Kind::Error,
            2 => Kind::EchoRequest,
            3 => Kind::EchoReply,
            4 => Kind::Experimenter,
            5 => Kind::FeaturesRequest,
            6 => Kind::FeaturesReply,
            7 => Kind::GetConfigRequest,
            8 => Kind::GetConfigReply,
            9 => Kind::SetConfig,
            10 => Kind::PacketIn,
            11 => Kind::FlowRemoved,
            12 => Kind::PortStatus,
            13 => Kind::PacketOut,
            14 => Kind::FlowMod,
            15 => Kind::GroupMod,
            16 => Kind::PortMod,
            17 => Kind::TableMod,
            18 => Kind::MultipartRequest,
            19 => Kind::MultipartReply,
            20 => Kind::BarrierRequest,
            21 => Kind::BarrierReply,
            24 => Kind::RoleRequest,
            25 => Kind::RoleReply,
            26 => Kind::GetAsynRequest,
            27 => Kind::GetAsyncReply,
            28 => Kind::SetAsync,
            29 => Kind::MeterMod,
            30 => Kind::RoleStatus,
            31 => Kind::TableStatus,
            32 => Kind::RequestForward,
            33 => Kind::BundleControler,
            34 => Kind::BundleAddMessage,
            k => Kind::_Unknown(k),
        }
    }

    /// The wire byte of this message kind.
    pub fn to_u8(self) -> (r: u8)
        ensures
            r == self.spec_to_u8(),
    {
        match self {
            Kind::Hello => 0,
            Kind::Error => 1,
            Kind::EchoRequest => 2,
            Kind::EchoReply => 3,
            Kind::Experimenter => 4,
            Kind::FeaturesRequest => 5,
            Kind::FeaturesReply => 6,
            Kind::GetConfigRequest => 7,
            Kind::GetConfigReply => 8,
            Kind::SetConfig => 9,
            Kind::PacketIn => 10,
            Kind::FlowRemoved => 11,
            Kind::PortStatus => 12,
            Kind::PacketOut => 13,
            Kind::FlowMod => 14,
            Kind::GroupMod => 15,
            Kind::PortMod => 16,
            Kind::TableMod => 17,
            Kind::MultipartRequest => 18,
            Kind::MultipartReply => 19,
            Kind::BarrierRequest => 20,
            Kind::BarrierReply => 21,
            Kind::RoleRequest => 24,
            Kind::RoleReply => 25,
            Kind::GetAsynRequest => 26,
            Kind::GetAsyncReply => 27,
            Kind::SetAsync => 28,
            Kind::MeterMod => 29,
            Kind::RoleStatus => 30,
            Kind::TableStatus => 31,
            Kind::RequestForward => 32,
            Kind::BundleControler => 33,
            Kind::BundleAddMessage => 34,
            Kind::_Unknown(k) => k,
        }
    }
}

/// A wrapper around a buffer holding an OpenFlow packet, with getters for
/// each header field and setter functions for writing one.
#[derive(Debug, Clone)]
pub struct Packet<'a> {
    buffer: &'a [u8],
}

impl<'a> Packet<'a> {
    /// The wrapped bytes.
    pub closed spec fn bytes(&self) -> Seq<u8> {
        self.buffer@
    }

    /// Imbue a raw octet buffer with OpenFlow packet structure.
    pub fn new(buffer: &'a [u8]) -> (r: Self)
        ensures
            r.bytes() == buffer@,
    {
        Packet { buffer }
    }

    /// Return a reader after checking that the 8-byte header is present.
    pub fn new_checked(buffer: &'a [u8]) -> (r: Result<Self, Error>)
        ensures
            buffer@.len() >= 8 ==> (r matches Ok(p) && p.bytes() == buffer@),
            buffer@.len() < 8 ==> r == Err::<Self, Error>(Error::Truncated),
    {
        let packet = Packet { buffer };
        match packet.check_len() {
            Ok(()) => Ok(packet),
            Err(e) => Err(e),
        }
    }

    /// Check that the 8-byte header is present.
    pub fn check_len(&self) -> (r: Result<(), Error>)
        ensures
            self.bytes().len() >= 8 ==> r is Ok,
            self.bytes().len() < 8 ==> r == Err::<(), Error>(Error::Truncated),
    {
        if self.buffer.len() < 8 {
            Err(Error::Truncated)
        } else {
            Ok(())
        }
    }

    /// Consume the packet, returning the underlying buffer.
    pub fn into_inner(self) -> (r: &'a [u8])
        ensures
            r@ == self.bytes(),
    {
        self.buffer
    }

    /// Return the version field.
    pub fn version(&self) -> (r: Version)
        requires
            self.bytes().len() >= 8,
        ensures
            r == Version::spec_from_u8(self.bytes()[0]),
    {
        Version::from_u8(self.buffer[0])
    }

    /// Return the type field, which selects how the payload is interpreted.
    pub fn kind(&self) -> (r: Kind)
        requires
            self.bytes().len() >= 8,
        ensures
            r == Kind::spec_from_u8(self.bytes()[1]),
    {
        Kind::from_u8(self.buffer[1])
    }

    /// Return the length field: the whole message, header included.
    pub fn length(&self) -> (r: u16)
        requires
            self.bytes().len() >= 8,
        ensures
            r == wire::spec_read_u16(self.bytes(), 2),
    {
        wire::read_u16_at(self.buffer, 2)
    }

    /// Return the xid field.
    pub fn xid(&self) -> (r: u32)
        requires
            self.bytes().len() >= 8,
        ensures
            r == wire::spec_read_u32(self.bytes(), 4),
    {
        wire::read_u32_at(self.buffer, 4)
    }

    /// The header length.
    pub fn header_len(&self) -> (r: usize)
        ensures
            r == 8,
    {
        8
    }

    /// Return everything after the header.
    pub fn data(&self) -> (r: &'a [u8])
        requires
            self.bytes().len() >= 8,
        ensures
            r@ == self.bytes().subrange(8, self.bytes().len() as int),
    {
        vstd::slice::slice_subrange(self.buffer, 8, self.buffer.len())
    }

    /// Return the payload: the bytes between the header and the declared
    /// message length.
    pub fn payload(&self) -> (r: &'a [u8])
        requires
            8 <= wire::spec_read_u16(self.bytes(), 2) <= self.bytes().len(),
        ensures
            r@ == self.bytes().subrange(8, wire::spec_read_u16(self.bytes(), 2) as int),
    {
        let length = wire::read_u16_at(self.buffer, 2) as usize;
        vstd::slice::slice_subrange(self.buffer, 8, length)
    }

    /// Write the version field of the message starting at `buf[0]`.
    pub fn set_version(buf: &mut [u8], value: Version)
        requires
            old(buf)@.len() >= 8,
        ensures
            final(buf)@ == old(buf)@.update(0, value.spec_to_u8()),
    {
        buf[0] = value.to_u8();
    }

    /// Write the type field of the message starting at `buf[0]`.
    pub fn set_kind(buf: &mut [u8], value: Kind)
        requires
            old(buf)@.len() >= 8,
        ensures
            final(buf)@ == old(buf)@.update(1, value.spec_to_u8()),
    {
        buf[1] = value.to_u8();
    }

    /// Write the length field of the message starting at `buf[0]`.
    pub fn set_length(buf: &mut [u8], value: u16)
        requires
            old(buf)@.len() >= 8,
        ensures
            final(buf)@ == wire::splice(old(buf)@, 2, wire::spec_u16_be(value)),
    {
        wire::write_u16_at(buf, 2, value);
    }

    /// Write the xid field of the message starting at `buf[0]`.
    pub fn set_xid(buf: &mut [u8], value: u32)
        requires
            old(buf)@.len() >= 8,
        ensures
            final(buf)@ == wire::splice(old(buf)@, 4, wire::spec_u32_be(value)),
    {
        wire::write_u32_at(buf, 4, value);
    }
}

/// The high-level representation of an OpenFlow packet: the header fields
/// and the payload, dispatched on the message kind.
#[derive(Debug, PartialEq, Eq, Clone)]
pub struct PacketRepr<E> {
    /// The protocol version.
    pub version: Version,
    /// The whole-message length, header included.
    pub length: u16,
    /// The message kind.
    pub kind: Kind,
    /// The transaction id matching requests to responses.
    pub xid: u32,
    /// The message payload.
    pub payload: PayloadRepr<E>,
}

/// The payload of an OpenFlow message, one variant per message kind this
/// crate interprets.
#[derive(Debug, PartialEq, Eq, Clone)]
pub enum PayloadRepr<E> {
    EchoRequest(Vec<u8>),
    EchoReply(Vec<u8>),
    Error(error::PacketRepr),
    FeaturesRequest,
    FeaturesReply(features_reply::PacketRepr),
    Hello(hello::PacketRepr),
    GetConfigRequest,
    GetConfigReply(get_config_reply::PacketRepr),
    SetConfig(set_config::PacketRepr),
    PacketIn(packet_in::PacketRepr<E>),
}

impl<E: Repr> PayloadRepr<E> {
    /// The payload is well formed.
    pub open spec fn spec_wf(&self) -> bool {
        match self {
            PayloadRepr::EchoRequest(v) => v@.len() <= usize::MAX,
            PayloadRepr::EchoReply(v) => v@.len() <= usize::MAX,
            PayloadRepr::Error(x) => x.spec_wf(),
            PayloadRepr::FeaturesRequest => true,
            PayloadRepr::FeaturesReply(_) => true,
            PayloadRepr::Hello(h) => h.spec_wf(),
            PayloadRepr::GetConfigRequest => true,
            PayloadRepr::GetConfigReply(_) => true,
            PayloadRepr::SetConfig(_) => true,
            PayloadRepr::PacketIn(p) => p.spec_wf(),
        }
    }

    /// The exact payload bytes.
    pub open spec fn spec_wire(&self) -> Seq<u8> {
        match self {
            PayloadRepr::EchoRequest(v) => v@,
            PayloadRepr::EchoReply(v) => v@,
            PayloadRepr::Error(x) => x.spec_wire(),
            PayloadRepr::FeaturesRequest => Seq::empty(),
            PayloadRepr::FeaturesReply(f) => f.spec_wire(),
            PayloadRepr::Hello(h) => h.spec_wire(),
            PayloadRepr::GetConfigRequest => Seq::empty(),
            PayloadRepr::GetConfigReply(g) => g.spec_wire(),
            PayloadRepr::SetConfig(c) => c.spec_wire(),
            PayloadRepr::PacketIn(p) => p.spec_wire(),
        }
    }

    /// Whether `p` is what parsing the payload bytes `b` yields for the
    /// given kind; kinds with an experimenter-dependent flow match leave
    /// that part to `E`.
    pub open spec fn spec_matches(p: &PayloadRepr<E>, kind: Kind, b: Seq<u8>) -> bool {
        match kind {
            Kind::Hello => p matches PayloadRepr::Hello(h)
                && hello::PacketRepr::spec_elems_match(h.0@, b),
            Kind::Error => p matches PayloadRepr::Error(x) && b.len() >= 4
                && Ok::<error::Header, Error>(x.header) == error::Header::spec_parse(
                wire::spec_read_u16(b, 0),
                wire::spec_read_u16(b, 2),
            ) && x.data@ == b.subrange(4, b.len() as int),
            Kind::EchoRequest => p matches PayloadRepr::EchoRequest(v) && v@ == b,
            Kind::EchoReply => p matches PayloadRepr::EchoReply(v) && v@ == b,
            Kind::FeaturesRequest => p is FeaturesRequest,
            Kind::FeaturesReply => p matches PayloadRepr::FeaturesReply(f) && b.len() == 24 && f
                == (features_reply::PacketRepr {
                datapath_id: wire::spec_read_u64(b, 0),
                n_buffers: wire::spec_read_u32(b, 8),
                n_tables: b[12],
                auxiliary_id: b[13],
                capabilities: features_reply::Capabilities(wire::spec_read_u32(b, 16)),
                reserved: wire::spec_read_u32(b, 20),
            }),
            Kind::GetConfigRequest => p is GetConfigRequest,
            Kind::GetConfigReply => p matches PayloadRepr::GetConfigReply(g) && b.len() >= 4 && g
                == (get_config_reply::PacketRepr {
                flags: get_config_reply::Flags::spec_from_u16(wire::spec_read_u16(b, 0)),
                miss_send_len: wire::spec_read_u16(b, 2),
            }),
            Kind::SetConfig => p matches PayloadRepr::SetConfig(c) && b.len() >= 4 && c
                == (set_config::PacketRepr {
                flags: set_config::Flags::spec_from_u16(wire::spec_read_u16(b, 0)),
                miss_send_len: wire::spec_read_u16(b, 2),
            }),
            Kind::PacketIn => p matches PayloadRepr::PacketIn(pi)
                && packet_in::PacketRepr::<E>::spec_matches(&pi, b),
            _ => false,
        }
    }

    /// Parse a payload according to the message kind; a kind this crate
    /// does not interpret is unrecognized.
    pub fn parse(kind: Kind, buffer: &[u8]) -> (r: Result<PayloadRepr<E>, Error>)
        ensures
            r matches Ok(p) ==> p.spec_wf() && Self::spec_matches(&p, kind, buffer@)
                && p.spec_wire().len() <= buffer@.len(),
            kind matches Kind::_Unknown(k) ==> r == Err::<PayloadRepr<E>, Error>(
                Error::Unrecognized,
            ),
    {
        let blen = buffer.len();
        match kind {
            Kind::Error => match error::PacketRepr::parse(buffer) {
                Ok(x) => Ok(PayloadRepr::Error(x)),
                Err(e) => Err(e),
            },
            Kind::Hello => match hello::PacketRepr::parse(buffer) {
                Ok(h) => Ok(PayloadRepr::Hello(h)),
                Err(e) => Err(e),
            },
            Kind::EchoRequest => Ok(
                PayloadRepr::EchoRequest(vstd::slice::slice_to_vec(buffer)),
            ),
            Kind::EchoReply => Ok(PayloadRepr::EchoReply(vstd::slice::slice_to_vec(buffer))),
            Kind::FeaturesRequest => Ok(PayloadRepr::FeaturesRequest),
            Kind::FeaturesReply => match features_reply::PacketRepr::parse(buffer) {
                Ok(f) => Ok(PayloadRepr::FeaturesReply(f)),
                Err(e) => Err(e),
            },
            Kind::GetConfigRequest => Ok(PayloadRepr::GetConfigRequest),
            Kind::GetConfigReply => match get_config_reply::PacketRepr::parse(buffer) {
                Ok(g) => Ok(PayloadRepr::GetConfigReply(g)),
                Err(e) => Err(e),
            },
            Kind::SetConfig => match set_config::PacketRepr::parse(buffer) {
                Ok(c) => Ok(PayloadRepr::SetConfig(c)),
                Err(e) => Err(e),
            },
            Kind::PacketIn => match packet_in::PacketRepr::<E>::parse(buffer) {
                Ok(p) => Ok(PayloadRepr::PacketIn(p)),
                Err(e) => Err(e),
            },
            _ => Err(Error::Unrecognized),
        }
    }

    /// The length of the payload this representation emits.
    pub fn buffer_len(&self) -> (r: usize)
        requires
            self.spec_wf(),
        ensures
            r == self.spec_wire().len(),
    {
        match self {
            PayloadRepr::Error(x) => x.buffer_len(),
            PayloadRepr::Hello(h) => h.buffer_len(),
            PayloadRepr::EchoRequest(v) => v.len(),
            PayloadRepr::EchoReply(v) => v.len(),
            PayloadRepr::FeaturesRequest => 0,
            PayloadRepr::GetConfigRequest => 0,
            PayloadRepr::FeaturesReply(f) => f.buffer_len(),
            PayloadRepr::GetConfigReply(g) => g.buffer_len(),
            PayloadRepr::SetConfig(c) => c.buffer_len(),
            PayloadRepr::PacketIn(p) => p.buffer_len(),
        }
    }

    /// Emit this payload into `buffer` at `offset`.
    pub fn emit_at(&self, buffer: &mut [u8], offset: usize) -> (r: Result<(), Error>)
        requires
            self.spec_wf(),
        ensures
            final(buffer)@.len() == old(buffer)@.len(),
            offset + self.spec_wire().len() <= old(buffer)@.len() ==> (r matches Ok(()))
                && final(buffer)@ == wire::splice(old(buffer)@, offset as int, self.spec_wire()),
            offset + self.spec_wire().len() > old(buffer)@.len() ==> (r matches Err(e)
                && e == Error::Exhausted) && final(buffer)@ == old(buffer)@,
    {
        match self {
            PayloadRepr::Error(x) => x.emit_at(buffer, offset),
            PayloadRepr::Hello(h) => h.emit_at(buffer, offset),
            PayloadRepr::EchoRequest(v) => {
                if !wire::fits(buffer.len(), offset, v.len()) {
                    return Err(Error::Exhausted);
                }
                wire::write_bytes_at(buffer, offset, v.as_slice());
                Ok(())
            },
            PayloadRepr::EchoReply(v) => {
                if !wire::fits(buffer.len(), offset, v.len()) {
                    return Err(Error::Exhausted);
                }
                wire::write_bytes_at(buffer, offset, v.as_slice());
                Ok(())
            },
            PayloadRepr::FeaturesRequest => {
                if !wire::fits(buffer.len(), offset, 0) {
                    return Err(Error::Exhausted);
                }
                proof {
                    wire::lemma_splice_empty(old(buffer)@, offset as int);
                }
                Ok(())
            },
            PayloadRepr::GetConfigRequest => {
                if !wire::fits(buffer.len(), offset, 0) {
                    return Err(Error::Exhausted);
                }
                proof {
                    wire::lemma_splice_empty(old(buffer)@, offset as int);
                }
                Ok(())
            },
            PayloadRepr::FeaturesReply(f) => f.emit_at(buffer, offset),
            PayloadRepr::GetConfigReply(g) => g.emit_at(buffer, offset),
            PayloadRepr::SetConfig(c) => c.emit_at(buffer, offset),
            PayloadRepr::PacketIn(p) => p.emit_at(buffer, offset),
        }
    }
}

impl<E: Repr> PacketRepr<E> {
    /// The payload is well formed and the emitted message is addressable.
    pub open spec fn spec_wf(&self) -> bool {
        &&& self.payload.spec_wf()
        &&& 8 + self.payload.spec_wire().len() <= usize::MAX
    }

    /// The exact bytes this message emits: version, kind, the length field
    /// as carried by this representation, the xid, then the payload.
    pub open spec fn spec_wire(&self) -> Seq<u8> {
        seq![self.version.spec_to_u8(), self.kind.spec_to_u8()] + wire::spec_u16_be(self.length)
            + wire::spec_u32_be(self.xid) + self.payload.spec_wire()
    }

    /// Set the length field from the payload this representation would
    /// emit.
    pub fn set_length_auto(&mut self)
        requires
            old(self).spec_wf(),
            8 + old(self).payload.spec_wire().len() <= 0xffff,
        ensures
            final(self).length == 8 + old(self).payload.spec_wire().len(),
            final(self).version == old(self).version,
            final(self).kind == old(self).kind,
            final(self).xid == old(self).xid,
            final(self).payload == old(self).payload,
    {
        self.length = self.buffer_len() as u16;
    }

    /// Parse an OpenFlow message: validate the header, then hand the bytes
    /// between the header and the declared length to the payload codec the
    /// kind selects.
    pub fn parse(buffer: &[u8]) -> (r: Result<PacketRepr<E>, Error>)
        ensures
            buffer@.len() < 8 ==> r == Err::<PacketRepr<E>, Error>(Error::Truncated),
            buffer@.len() >= 8 && wire::spec_read_u16(buffer@, 2) < 8 ==> r == Err::<
                PacketRepr<E>,
                Error,
            >(Error::Malformed),
            buffer@.len() >= 8 && buffer@.len() < wire::spec_read_u16(buffer@, 2) ==> r == Err::<
                PacketRepr<E>,
                Error,
            >(Error::Truncated),
            r matches Ok(m) ==> ({
                let b = buffer@;
                &&& m.spec_wf()
                &&& m.version == Version::spec_from_u8(b[0])
                &&& m.kind == Kind::spec_from_u8(b[1])
                &&& m.length == wire::spec_read_u16(b, 2)
                &&& m.xid == wire::spec_read_u32(b, 4)
                &&& PayloadRepr::<E>::spec_matches(&m.payload, m.kind, b.subrange(
                    8,
                    wire::spec_read_u16(b, 2) as int,
                ))
                &&& m.spec_wire().len() <= b.len()
            }),
    {
        let blen = buffer.len();
        let packet = match Packet::new_checked(buffer) {
            Ok(p) => p,
            Err(e) => {
                return Err(e);
            },
        };
        let length = packet.length() as usize;
        if length < 8 {
            return Err(Error::Malformed);
        }
        if blen < length {
            return Err(Error::Truncated);
        }
        let kind = packet.kind();
        let payload = match PayloadRepr::<E>::parse(kind, packet.payload()) {
            Ok(p) => p,
            Err(e) => {
                return Err(e);
            },
        };
        Ok(
            PacketRepr {
                version: packet.version(),
                kind,
                length: packet.length(),
                xid: packet.xid(),
                payload,
            },
        )
    }

    /// The length of the message this representation emits: the 8-byte
    /// header plus the payload.
    pub fn buffer_len(&self) -> (r: usize)
        requires
            self.spec_wf(),
        ensures
            r == self.spec_wire().len(),
    {
        8 + self.payload.buffer_len()
    }

    /// Emit this message at the start of `buffer`.
    pub fn emit(&self, buffer: &mut [u8]) -> (r: Result<(), Error>)
        requires
            self.spec_wf(),
        ensures
            final(buffer)@.len() == old(buffer)@.len(),
            self.spec_wire().len() <= old(buffer)@.len() ==> (r matches Ok(()))
                && final(buffer)@ == wire::splice(old(buffer)@, 0, self.spec_wire()),
            self.spec_wire().len() > old(buffer)@.len() ==> (r matches Err(e)
                && e == Error::Exhausted) && final(buffer)@ == old(buffer)@,
    {
        self.emit_at(buffer, 0)
    }

    /// Emit this message into `buffer` at `offset`.
    pub fn emit_at(&self, buffer: &mut [u8], offset: usize) -> (r: Result<(), Error>)
        requires
            self.spec_wf(),
        ensures
            final(buffer)@.len() == old(buffer)@.len(),
            offset + self.spec_wire().len() <= old(buffer)@.len() ==> (r matches Ok(()))
                && final(buffer)@ == wire::splice(old(buffer)@, offset as int, self.spec_wire()),
            offset + self.spec_wire().len() > old(buffer)@.len() ==> (r matches Err(e)
                && e == Error::Exhausted) && final(buffer)@ == old(buffer)@,
    {
        let n = self.buffer_len();
        if !wire::fits(buffer.len(), offset, n) {
            return Err(Error::Exhausted);
        }
        wire::write_u8_at(buffer, offset, self.version.to_u8());
        wire::write_u8_at(buffer, offset + 1, self.kind.to_u8());
        wire::write_u16_at(buffer, offset + 2, self.length);
        wire::write_u32_at(buffer, offset + 4, self.xid);
        match self.payload.emit_at(buffer, offset + 8) {
            Ok(()) => (),
            Err(e) => {
                proof {
                    assert(false);
                }
                return Err(e);
            },
        }
        proof {
            let o = old(buffer)@;
            let voff = offset as int;
            let w0 = seq![self.version.spec_to_u8()];
            let w1 = seq![self.kind.spec_to_u8()];
            let w2 = wire::spec_u16_be(self.length);
            let w3 = wire::spec_u32_be(self.xid);
            wire::lemma_splice_adjacent(o, voff, w0, w1);
            wire::lemma_splice_adjacent(o, voff, w0 + w1, w2);
            wire::lemma_splice_adjacent(o, voff, w0 + w1 + w2, w3);
            wire::lemma_splice_adjacent(o, voff, w0 + w1 + w2 + w3, self.payload.spec_wire());
            assert(w0 + w1 + w2 + w3 + self.payload.spec_wire() =~= self.spec_wire());
        }
        Ok(())
    }
}

impl<E: Repr> Repr for PacketRepr<E> {
    open spec fn wf(&self) -> bool {
        self.spec_wf()
    }

    open spec fn wire(&self) -> Seq<u8> {
        self.spec_wire()
    }

    fn parse(buffer: &[u8]) -> (r: Result<Self, Error>) {
        PacketRepr::<E>::parse(buffer)
    }

    fn buffer_len(&self) -> (r: usize) {
        PacketRepr::<E>::buffer_len(self)
    }

    fn emit(&self, buffer: &mut [u8]) -> (r: Result<(), Error>) {
        PacketRepr::<E>::emit(self, buffer)
    }

    fn emit_at(&self, buffer: &mut [u8], offset: usize) -> (r: Result<(), Error>) {
        PacketRepr::<E>::emit_at(self, buffer, offset)
    }
}

} // verus!
