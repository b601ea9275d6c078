//! The closed set of standard flow match fields and its dispatch.
//!
//! A flow match field is an OXM TLV whose `oxm_class` is
//! [`CLASS_OPEN_FLOW_BASIC`](crate::oxm::CLASS_OPEN_FLOW_BASIC); the
//! `oxm_field` code selects one of the concrete codecs below.

use vstd::prelude::*;

pub mod consts;
pub mod header;
pub mod pipeline;

use crate::oxm::packet;
use crate::oxm::packet::Packet;
use crate::wire;
use crate::Error;

use self::header::{ArpOpCode, ArpSha, ArpSpa, ArpTha, ArpTpa, EthernetDestination, EthernetSource, EthernetType, IcmpCode, IcmpType, Icmpv6Code, Icmpv6Type, IpDscp, IpEcn, IpProtocol, Ipv4Destination, Ipv4Source, Ipv6Destination, Ipv6ExtensionHeader, Ipv6FlowLabel, Ipv6NdSll, Ipv6NdTarget, Ipv6NdTll, Ipv6Source, MplsBos, MplsLabel, MplsTc, PbbIsid, PbbUca, SctpDestination, SctpSource, TcpDestination, TcpFlags, TcpSource, UdpDestination, UdpSource, VlanId, VlanPriority};
use self::pipeline::{ActionSetOutput, InPhysicalPort, InPort, Metadata, PacketType, TunnelId};

verus! {

/// The byte string of a standard-class TLV: class `0x8000`, then the field
/// code and has-mask flag packed in one byte, then the payload length, then
/// the payload itself.
pub open spec fn std_tlv(code: u8, hm: bool, vb: Seq<u8>) -> Seq<u8> {
    seq![0x80u8, 0x00u8, (code << 1) | (if hm { 1u8 } else { 0u8 }), vb.len() as u8] + vb
}

/// How the header fields of a standard TLV read back.
pub proof fn lemma_std_tlv_header(code: u8, hm: bool, vb: Seq<u8>)
    requires
        code < 0x80,
        vb.len() <= 0xff,
    ensures
        std_tlv(code, hm, vb).len() == 4 + vb.len(),
        packet::tlv_class(std_tlv(code, hm, vb)) == 0x8000,
        packet::tlv_field(std_tlv(code, hm, vb)) == code,
        packet::tlv_has_mask(std_tlv(code, hm, vb)) == hm,
        packet::tlv_length(std_tlv(code, hm, vb)) == vb.len(),
        forall|k: int| 0 <= k < vb.len() ==> std_tlv(code, hm, vb)[4 + k] == vb[k],
{
    let fb = (code << 1) | (if hm { 1u8 } else { 0u8 });
    assert(code < 0x80 ==> (((code << 1) | 1u8) >> 1 == code && ((code << 1) | 0u8) >> 1 == code
        && (((code << 1) | 1u8) & 1) == 1 && (((code << 1) | 0u8) & 1) == 0)) by (bit_vector);
    assert((((0x80u8) as u16) << 8) | ((0x00u8) as u16) == 0x8000) by (bit_vector);
}

/// A standard flow match field: an OXM TLV with `oxm_class` equal to
/// [`CLASS_OPEN_FLOW_BASIC`](crate::oxm::CLASS_OPEN_FLOW_BASIC).
#[derive(Debug, PartialEq, Eq, Clone)]
pub enum FlowMatchField {
    InPort(InPort),
    InPhysicalPort(InPhysicalPort),
    Metadata(Metadata),
    EthernetDestination(EthernetDestination),
    EthernetSource(EthernetSource),
    EthernetType(EthernetType),
    VlanId(VlanId),
    VlanPriority(VlanPriority),
    IpDscp(IpDscp),
    IpEcn(IpEcn),
    IpProtocol(IpProtocol),
    Ipv4Source(Ipv4Source),
    Ipv4Destination(Ipv4Destination),
    TcpSource(TcpSource),
    TcpDestination(TcpDestination),
    UdpSource(UdpSource),
    UdpDestination(UdpDestination),
    SctpSource(SctpSource),
    SctpDestination(SctpDestination),
    IcmpType(IcmpType),
    IcmpCode(IcmpCode),
    ArpOpCode(ArpOpCode),
    ArpSpa(ArpSpa),
    ArpTpa(ArpTpa),
    ArpSha(ArpSha),
    ArpTha(ArpTha),
    Ipv6Source(Ipv6Source),
    Ipv6Destination(Ipv6Destination),
    Ipv6FlowLabel(Ipv6FlowLabel),
    Icmpv6Type(Icmpv6Type),
    Icmpv6Code(Icmpv6Code),
    Ipv6NdTarget(Ipv6NdTarget),
    Ipv6NdSll(Ipv6NdSll),
    Ipv6NdTll(Ipv6NdTll),
    MplsLabel(MplsLabel),
    MplsTc(MplsTc),
    MplsBos(MplsBos),
    PbbIsid(PbbIsid),
    TunnelId(TunnelId),
    Ipv6ExtensionHeader(Ipv6ExtensionHeader),
    PbbUca(PbbUca),
    TcpFlags(TcpFlags),
    ActionSetOutput(ActionSetOutput),
    PacketType(PacketType),
}

impl FlowMatchField {
    /// The `oxm_field` code of this field.
    pub open spec fn spec_code(&self) -> u8 {
        match self {
            FlowMatchField::InPort(x) => consts::IN_PORT,
            FlowMatchField::InPhysicalPort(x) => consts::IN_PHYSICAL_PORT,
            FlowMatchField::Metadata(x) => consts::METADATA,
            FlowMatchField::EthernetDestination(x) => consts::ETHERNET_DESTINATION,
            FlowMatchField::EthernetSource(x) => consts::ETHERNET_SOURCE,
            FlowMatchField::EthernetType(x) => consts::ETHERNET_TYPE,
            FlowMatchField::VlanId(x) => consts::VLAN_ID,
            FlowMatchField::VlanPriority(x) => consts::VLAN_PRIORITY,
            FlowMatchField::IpDscp(x) => consts::IP_DSCP,
            FlowMatchField::IpEcn(x) => consts::IP_ECN,
            FlowMatchField::IpProtocol(x) => consts::IP_PROTOCOL,
            FlowMatchField::Ipv4Source(x) => consts::IPV4_SOURCE,
            FlowMatchField::Ipv4Destination(x) => consts::IPV4_DESTINATION,
            FlowMatchField::TcpSource(x) => consts::TCP_SOURCE,
            FlowMatchField::TcpDestination(x) => consts::TCP_DESTINATION,
            FlowMatchField::UdpSource(x) => consts::UDP_SOURCE,
            FlowMatchField::UdpDestination(x) => consts::UDP_DESTINATION,
            FlowMatchField::SctpSource(x) => consts::SCTP_SOURCE,
            FlowMatchField::SctpDestination(x) => consts::SCTP_DESTINATION,
            FlowMatchField::IcmpType(x) => consts::ICMP_TYPE,
            FlowMatchField::IcmpCode(x) => consts::ICMP_CODE,
            FlowMatchField::ArpOpCode(x) => consts::ARP_OP_CODE,
            FlowMatchField::ArpSpa(x) => consts::ARP_SPA,
            FlowMatchField::ArpTpa(x) => consts::ARP_TPA,
            FlowMatchField::ArpSha(x) => consts::ARP_SHA,
            FlowMatchField::ArpTha(x) => consts::ARP_THA,
            FlowMatchField::Ipv6Source(x) => consts::IPV6_SOURCE,
            FlowMatchField::Ipv6Destination(x) => consts::IPV6_DESTINATION,
            FlowMatchField::Ipv6FlowLabel(x) => consts::IPV6_FLOW_LABEL,
            FlowMatchField::Icmpv6Type(x) => consts::ICMPV6_TYPE,
            FlowMatchField::Icmpv6Code(x) => consts::ICMPV6_CODE,
            FlowMatchField::Ipv6NdTarget(x) => consts::IPV6_ND_TARGET,
            FlowMatchField::Ipv6NdSll(x) => consts::IPV6_ND_SLL,
            FlowMatchField::Ipv6NdTll(x) => consts::IPV6_ND_TLL,
            FlowMatchField::MplsLabel(x) => consts::MPLS_LABEL,
            FlowMatchField::MplsTc(x) => consts::MPLS_TC,
            FlowMatchField::MplsBos(x) => consts::MPLS_BOS,
            FlowMatchField::PbbIsid(x) => consts::PBB_ISID,
            FlowMatchField::TunnelId(x) => consts::TUNNEL_ID,
            FlowMatchField::Ipv6ExtensionHeader(x) => consts::IPV6_EXTENSION_HEADER,
            FlowMatchField::PbbUca(x) => consts::PBB_UCA,
            FlowMatchField::TcpFlags(x) => consts::TCP_FLAGS,
            FlowMatchField::ActionSetOutput(x) => consts::ACTION_SET_OUTPUT,
            FlowMatchField::PacketType(x) => consts::PACKET_TYPE,
        }
    }

    /// Whether the payload carries a mask.
    pub open spec fn spec_has_mask(&self) -> bool {
        match self {
            FlowMatchField::InPort(x) => x.spec_has_mask(),
            FlowMatchField::InPhysicalPort(x) => x.spec_has_mask(),
            FlowMatchField::Metadata(x) => x.spec_has_mask(),
            FlowMatchField::EthernetDestination(x) => x.spec_has_mask(),
            FlowMatchField::EthernetSource(x) => x.spec_has_mask(),
            FlowMatchField::EthernetType(x) => x.spec_has_mask(),
            FlowMatchField::VlanId(x) => x.spec_has_mask(),
            FlowMatchField::VlanPriority(x) => x.spec_has_mask(),
            FlowMatchField::IpDscp(x) => x.spec_has_mask(),
            FlowMatchField::IpEcn(x) => x.spec_has_mask(),
            FlowMatchField::IpProtocol(x) => x.spec_has_mask(),
            FlowMatchField::Ipv4Source(x) => x.spec_has_mask(),
            FlowMatchField::Ipv4Destination(x) => x.spec_has_mask(),
            FlowMatchField::TcpSource(x) => x.spec_has_mask(),
            FlowMatchField::TcpDestination(x) => x.spec_has_mask(),
            FlowMatchField::UdpSource(x) => x.spec_has_mask(),
            FlowMatchField::UdpDestination(x) => x.spec_has_mask(),
            FlowMatchField::SctpSource(x) => x.spec_has_mask(),
            FlowMatchField::SctpDestination(x) => x.spec_has_mask(),
            FlowMatchField::IcmpType(x) => x.spec_has_mask(),
            FlowMatchField::IcmpCode(x) => x.spec_has_mask(),
            FlowMatchField::ArpOpCode(x) => x.spec_has_mask(),
            FlowMatchField::ArpSpa(x) => x.spec_has_mask(),
            FlowMatchField::ArpTpa(x) => x.spec_has_mask(),
            FlowMatchField::ArpSha(x) => x.spec_has_mask(),
            FlowMatchField::ArpTha(x) => x.spec_has_mask(),
            FlowMatchField::Ipv6Source(x) => x.spec_has_mask(),
            FlowMatchField::Ipv6Destination(x) => x.spec_has_mask(),
            FlowMatchField::Ipv6FlowLabel(x) => x.spec_has_mask(),
            FlowMatchField::Icmpv6Type(x) => x.spec_has_mask(),
            FlowMatchField::Icmpv6Code(x) => x.spec_has_mask(),
            FlowMatchField::Ipv6NdTarget(x) => x.spec_has_mask(),
            FlowMatchField::Ipv6NdSll(x) => x.spec_has_mask(),
            FlowMatchField::Ipv6NdTll(x) => x.spec_has_mask(),
            FlowMatchField::MplsLabel(x) => x.spec_has_mask(),
            FlowMatchField::MplsTc(x) => x.spec_has_mask(),
            FlowMatchField::MplsBos(x) => x.spec_has_mask(),
            FlowMatchField::PbbIsid(x) => x.spec_has_mask(),
            FlowMatchField::TunnelId(x) => x.spec_has_mask(),
            FlowMatchField::Ipv6ExtensionHeader(x) => x.spec_has_mask(),
            FlowMatchField::PbbUca(x) => x.spec_has_mask(),
            FlowMatchField::TcpFlags(x) => x.spec_has_mask(),
            FlowMatchField::ActionSetOutput(x) => x.spec_has_mask(),
            FlowMatchField::PacketType(x) => x.spec_has_mask(),
        }
    }

    /// The payload bytes.
    pub open spec fn spec_value_bytes(&self) -> Seq<u8> {
        match self {
            FlowMatchField::InPort(x) => x.spec_value_bytes(),
            FlowMatchField::InPhysicalPort(x) => x.spec_value_bytes(),
            FlowMatchField::Metadata(x) => x.spec_value_bytes(),
            FlowMatchField::EthernetDestination(x) => x.spec_value_bytes(),
            FlowMatchField::EthernetSource(x) => x.spec_value_bytes(),
            FlowMatchField::EthernetType(x) => x.spec_value_bytes(),
            FlowMatchField::VlanId(x) => x.spec_value_bytes(),
            FlowMatchField::VlanPriority(x) => x.spec_value_bytes(),
            FlowMatchField::IpDscp(x) => x.spec_value_bytes(),
            FlowMatchField::IpEcn(x) => x.spec_value_bytes(),
            FlowMatchField::IpProtocol(x) => x.spec_value_bytes(),
            FlowMatchField::Ipv4Source(x) => x.spec_value_bytes(),
            FlowMatchField::Ipv4Destination(x) => x.spec_value_bytes(),
            FlowMatchField::TcpSource(x) => x.spec_value_bytes(),
            FlowMatchField::TcpDestination(x) => x.spec_value_bytes(),
            FlowMatchField::UdpSource(x) => x.spec_value_bytes(),
            FlowMatchField::UdpDestination(x) => x.spec_value_bytes(),
            FlowMatchField::SctpSource(x) => x.spec_value_bytes(),
            FlowMatchField::SctpDestination(x) => x.spec_value_bytes(),
            FlowMatchField::IcmpType(x) => x.spec_value_bytes(),
            FlowMatchField::IcmpCode(x) => x.spec_value_bytes(),
            FlowMatchField::ArpOpCode(x) => x.spec_value_bytes(),
            FlowMatchField::ArpSpa(x) => x.spec_value_bytes(),
            FlowMatchField::ArpTpa(x) => x.spec_value_bytes(),
            FlowMatchField::ArpSha(x) => x.spec_value_bytes(),
            FlowMatchField::ArpTha(x) => x.spec_value_bytes(),
            FlowMatchField::Ipv6Source(x) => x.spec_value_bytes(),
            FlowMatchField::Ipv6Destination(x) => x.spec_value_bytes(),
            FlowMatchField::Ipv6FlowLabel(x) => x.spec_value_bytes(),
            FlowMatchField::Icmpv6Type(x) => x.spec_value_bytes(),
            FlowMatchField::Icmpv6Code(x) => x.spec_value_bytes(),
            FlowMatchField::Ipv6NdTarget(x) => x.spec_value_bytes(),
            FlowMatchField::Ipv6NdSll(x) => x.spec_value_bytes(),
            FlowMatchField::Ipv6NdTll(x) => x.spec_value_bytes(),
            FlowMatchField::MplsLabel(x) => x.spec_value_bytes(),
            FlowMatchField::MplsTc(x) => x.spec_value_bytes(),
            FlowMatchField::MplsBos(x) => x.spec_value_bytes(),
            FlowMatchField::PbbIsid(x) => x.spec_value_bytes(),
            FlowMatchField::TunnelId(x) => x.spec_value_bytes(),
            FlowMatchField::Ipv6ExtensionHeader(x) => x.spec_value_bytes(),
            FlowMatchField::PbbUca(x) => x.spec_value_bytes(),
            FlowMatchField::TcpFlags(x) => x.spec_value_bytes(),
            FlowMatchField::ActionSetOutput(x) => x.spec_value_bytes(),
            FlowMatchField::PacketType(x) => x.spec_value_bytes(),
        }
    }

    /// Truncation invariants of the wrapped field.
    pub open spec fn spec_wf(&self) -> bool {
        match self {
            FlowMatchField::InPort(x) => x.spec_wf(),
            FlowMatchField::InPhysicalPort(x) => x.spec_wf(),
            FlowMatchField::Metadata(x) => x.spec_wf(),
            FlowMatchField::EthernetDestination(x) => x.spec_wf(),
            FlowMatchField::EthernetSource(x) => x.spec_wf(),
            FlowMatchField::EthernetType(x) => x.spec_wf(),
            FlowMatchField::VlanId(x) => x.spec_wf(),
            FlowMatchField::VlanPriority(x) => x.spec_wf(),
            FlowMatchField::IpDscp(x) => x.spec_wf(),
            FlowMatchField::IpEcn(x) => x.spec_wf(),
            FlowMatchField::IpProtocol(x) => x.spec_wf(),
            FlowMatchField::Ipv4Source(x) => x.spec_wf(),
            FlowMatchField::Ipv4Destination(x) => x.spec_wf(),
            FlowMatchField::TcpSource(x) => x.spec_wf(),
            FlowMatchField::TcpDestination(x) => x.spec_wf(),
            FlowMatchField::UdpSource(x) => x.spec_wf(),
            FlowMatchField::UdpDestination(x) => x.spec_wf(),
            FlowMatchField::SctpSource(x) => x.spec_wf(),
            FlowMatchField::SctpDestination(x) => x.spec_wf(),
            FlowMatchField::IcmpType(x) => x.spec_wf(),
            FlowMatchField::IcmpCode(x) => x.spec_wf(),
            FlowMatchField::ArpOpCode(x) => x.spec_wf(),
            FlowMatchField::ArpSpa(x) => x.spec_wf(),
            FlowMatchField::ArpTpa(x) => x.spec_wf(),
            FlowMatchField::ArpSha(x) => x.spec_wf(),
            FlowMatchField::ArpTha(x) => x.spec_wf(),
            FlowMatchField::Ipv6Source(x) => x.spec_wf(),
            FlowMatchField::Ipv6Destination(x) => x.spec_wf(),
            FlowMatchField::Ipv6FlowLabel(x) => x.spec_wf(),
            FlowMatchField::Icmpv6Type(x) => x.spec_wf(),
            FlowMatchField::Icmpv6Code(x) => x.spec_wf(),
            FlowMatchField::Ipv6NdTarget(x) => x.spec_wf(),
            FlowMatchField::Ipv6NdSll(x) => x.spec_wf(),
            FlowMatchField::Ipv6NdTll(x) => x.spec_wf(),
            FlowMatchField::MplsLabel(x) => x.spec_wf(),
            FlowMatchField::MplsTc(x) => x.spec_wf(),
            FlowMatchField::MplsBos(x) => x.spec_wf(),
            FlowMatchField::PbbIsid(x) => x.spec_wf(),
            FlowMatchField::TunnelId(x) => x.spec_wf(),
            FlowMatchField::Ipv6ExtensionHeader(x) => x.spec_wf(),
            FlowMatchField::PbbUca(x) => x.spec_wf(),
            FlowMatchField::TcpFlags(x) => x.spec_wf(),
            FlowMatchField::ActionSetOutput(x) => x.spec_wf(),
            FlowMatchField::PacketType(x) => x.spec_wf(),
        }
    }

    /// The exact TLV bytes this field emits.
    pub open spec fn spec_wire(&self) -> Seq<u8> {
        std_tlv(self.spec_code(), self.spec_has_mask(), self.spec_value_bytes())
    }

    /// What parsing a standard TLV yields: dispatch on the field code,
    /// an unknown code is `BadOxmField`.
    pub open spec fn spec_parse(b: Seq<u8>) -> Result<FlowMatchField, Error> {
        if b.len() < 4 {
            Err(Error::Truncated)
        } else {
            let c = packet::tlv_field(b);
            if c == consts::IN_PORT {
                InPort::spec_parse_tlv(b)
            } else if c == consts::IN_PHYSICAL_PORT {
                InPhysicalPort::spec_parse_tlv(b)
            } else if c == consts::METADATA {
                Metadata::spec_parse_tlv(b)
            } else if c == consts::ETHERNET_DESTINATION {
                EthernetDestination::spec_parse_tlv(b)
            } else if c == consts::ETHERNET_SOURCE {
                EthernetSource::spec_parse_tlv(b)
            } else if c == consts::ETHERNET_TYPE {
                EthernetType::spec_parse_tlv(b)
            } else if c == consts::VLAN_ID {
                VlanId::spec_parse_tlv(b)
            } else if c == consts::VLAN_PRIORITY {
                VlanPriority::spec_parse_tlv(b)
            } else if c == consts::IP_DSCP {
                IpDscp::spec_parse_tlv(b)
            } else if c == consts::IP_ECN {
                IpEcn::spec_parse_tlv(b)
            } else if c == consts::IP_PROTOCOL {
                IpProtocol::spec_parse_tlv(b)
            } else if c == consts::IPV4_SOURCE {
                Ipv4Source::spec_parse_tlv(b)
            } else if c == consts::IPV4_DESTINATION {
                Ipv4Destination::spec_parse_tlv(b)
            } else if c == consts::TCP_SOURCE {
                TcpSource::spec_parse_tlv(b)
            } else if c == consts::TCP_DESTINATION {
                TcpDestination::spec_parse_tlv(b)
            } else if c == consts::UDP_SOURCE {
                UdpSource::spec_parse_tlv(b)
            } else if c == consts::UDP_DESTINATION {
                UdpDestination::spec_parse_tlv(b)
            } else if c == consts::SCTP_SOURCE {
                SctpSource::spec_parse_tlv(b)
            } else if c == consts::SCTP_DESTINATION {
                SctpDestination::spec_parse_tlv(b)
            } else if c == consts::ICMP_TYPE {
                IcmpType::spec_parse_tlv(b)
            } else if c == consts::ICMP_CODE {
                IcmpCode::spec_parse_tlv(b)
            } else if c == consts::ARP_OP_CODE {
                ArpOpCode::spec_parse_tlv(b)
            } else if c == consts::ARP_SPA {
                ArpSpa::spec_parse_tlv(b)
            } else if c == consts::ARP_TPA {
                ArpTpa::spec_parse_tlv(b)
            } else if c == consts::ARP_SHA {
                ArpSha::spec_parse_tlv(b)
            } else if c == consts::ARP_THA {
                ArpTha::spec_parse_tlv(b)
            } else if c == consts::IPV6_SOURCE {
                Ipv6Source::spec_parse_tlv(b)
            } else if c == consts::IPV6_DESTINATION {
                Ipv6Destination::spec_parse_tlv(b)
            } else if c == consts::IPV6_FLOW_LABEL {
                Ipv6FlowLabel::spec_parse_tlv(b)
            } else if c == consts::ICMPV6_TYPE {
                Icmpv6Type::spec_parse_tlv(b)
            } else if c == consts::ICMPV6_CODE {
                Icmpv6Code::spec_parse_tlv(b)
            } else if c == consts::IPV6_ND_TARGET {
                Ipv6NdTarget::spec_parse_tlv(b)
            } else if c == consts::IPV6_ND_SLL {
                Ipv6NdSll::spec_parse_tlv(b)
            } else if c == consts::IPV6_ND_TLL {
                Ipv6NdTll::spec_parse_tlv(b)
            } else if c == consts::MPLS_LABEL {
                MplsLabel::spec_parse_tlv(b)
            } else if c == consts::MPLS_TC {
                MplsTc::spec_parse_tlv(b)
            } else if c == consts::MPLS_BOS {
                MplsBos::spec_parse_tlv(b)
            } else if c == consts::PBB_ISID {
                PbbIsid::spec_parse_tlv(b)
            } else if c == consts::TUNNEL_ID {
                TunnelId::spec_parse_tlv(b)
            } else if c == consts::IPV6_EXTENSION_HEADER {
                Ipv6ExtensionHeader::spec_parse_tlv(b)
            } else if c == consts::PBB_UCA {
                PbbUca::spec_parse_tlv(b)
            } else if c == consts::TCP_FLAGS {
                TcpFlags::spec_parse_tlv(b)
            } else if c == consts::ACTION_SET_OUTPUT {
                ActionSetOutput::spec_parse_tlv(b)
            } else if c == consts::PACKET_TYPE {
                PacketType::spec_parse_tlv(b)
            } else {
                Err(Error::BadOxmField)
            }
        }
    }

    /// Parse an OXM TLV buffer as a standard flow match field,
    /// dispatching strictly on the field code of the header.
    pub fn parse(packet: &Packet<'_>) -> (r: Result<FlowMatchField, Error>)
        ensures
            r == Self::spec_parse(packet.bytes()),
            r matches Ok(fd) ==> fd.spec_wf() && 5 <= fd.spec_wire().len() <= packet.bytes().len(),
    {
        if packet.len() < 4 {
            return Err(Error::Truncated);
        }
        let c = packet.field();
        if c == consts::IN_PORT {
            InPort::parse_tlv(packet)
        } else if c == consts::IN_PHYSICAL_PORT {
            InPhysicalPort::parse_tlv(packet)
        } else if c == consts::METADATA {
            Metadata::parse_tlv(packet)
        } else if c == consts::ETHERNET_DESTINATION {
            EthernetDestination::parse_tlv(packet)
        } else if c == consts::ETHERNET_SOURCE {
            EthernetSource::parse_tlv(packet)
        } else if c == consts::ETHERNET_TYPE {
            EthernetType::parse_tlv(packet)
        } else if c == consts::VLAN_ID {
            VlanId::parse_tlv(packet)
        } else if c == consts::VLAN_PRIORITY {
            VlanPriority::parse_tlv(packet)
        } else if c == consts::IP_DSCP {
            IpDscp::parse_tlv(packet)
        } else if c == consts::IP_ECN {
            IpEcn::parse_tlv(packet)
        } else if c == consts::IP_PROTOCOL {
            IpProtocol::parse_tlv(packet)
        } else if c == consts::IPV4_SOURCE {
            Ipv4Source::parse_tlv(packet)
        } else if c == consts::IPV4_DESTINATION {
            Ipv4Destination::parse_tlv(packet)
        } else if c == consts::TCP_SOURCE {
            TcpSource::parse_tlv(packet)
        } else if c == consts::TCP_DESTINATION {
            TcpDestination::parse_tlv(packet)
        } else if c == consts::UDP_SOURCE {
            UdpSource::parse_tlv(packet)
        } else if c == consts::UDP_DESTINATION {
            UdpDestination::parse_tlv(packet)
        } else if c == consts::SCTP_SOURCE {
            SctpSource::parse_tlv(packet)
        } else if c == consts::SCTP_DESTINATION {
            SctpDestination::parse_tlv(packet)
        } else if c == consts::ICMP_TYPE {
            IcmpType::parse_tlv(packet)
        } else if c == consts::ICMP_CODE {
            IcmpCode::parse_tlv(packet)
        } else if c == consts::ARP_OP_CODE {
            ArpOpCode::parse_tlv(packet)
        } else if c == consts::ARP_SPA {
            ArpSpa::parse_tlv(packet)
        } else if c == consts::ARP_TPA {
            ArpTpa::parse_tlv(packet)
        } else if c == consts::ARP_SHA {
            ArpSha::parse_tlv(packet)
        } else if c == consts::ARP_THA {
            ArpTha::parse_tlv(packet)
        } else if c == consts::IPV6_SOURCE {
            Ipv6Source::parse_tlv(packet)
        } else if c == consts::IPV6_DESTINATION {
            Ipv6Destination::parse_tlv(packet)
        } else if c == consts::IPV6_FLOW_LABEL {
            Ipv6FlowLabel::parse_tlv(packet)
        } else if c == consts::ICMPV6_TYPE {
            Icmpv6Type::parse_tlv(packet)
        } else if c == consts::ICMPV6_CODE {
            Icmpv6Code::parse_tlv(packet)
        } else if c == consts::IPV6_ND_TARGET {
            Ipv6NdTarget::parse_tlv(packet)
        } else if c == consts::IPV6_ND_SLL {
            Ipv6NdSll::parse_tlv(packet)
        } else if c == consts::IPV6_ND_TLL {
            Ipv6NdTll::parse_tlv(packet)
        } else if c == consts::MPLS_LABEL {
            MplsLabel::parse_tlv(packet)
        } else if c == consts::MPLS_TC {
            MplsTc::parse_tlv(packet)
        } else if c == consts::MPLS_BOS {
            MplsBos::parse_tlv(packet)
        } else if c == consts::PBB_ISID {
            PbbIsid::parse_tlv(packet)
        } else if c == consts::TUNNEL_ID {
            TunnelId::parse_tlv(packet)
        } else if c == consts::IPV6_EXTENSION_HEADER {
            Ipv6ExtensionHeader::parse_tlv(packet)
        } else if c == consts::PBB_UCA {
            PbbUca::parse_tlv(packet)
        } else if c == consts::TCP_FLAGS {
            TcpFlags::parse_tlv(packet)
        } else if c == consts::ACTION_SET_OUTPUT {
            ActionSetOutput::parse_tlv(packet)
        } else if c == consts::PACKET_TYPE {
            PacketType::parse_tlv(packet)
        } else {
            Err(Error::BadOxmField)
        }
    }

    fn field_code(&self) -> (r: u8)
        ensures
            r == self.spec_code(),
            r < 0x80,
    {
        match self {
            FlowMatchField::InPort(_) => consts::IN_PORT,
            FlowMatchField::InPhysicalPort(_) => consts::IN_PHYSICAL_PORT,
            FlowMatchField::Metadata(_) => consts::METADATA,
            FlowMatchField::EthernetDestination(_) => consts::ETHERNET_DESTINATION,
            FlowMatchField::EthernetSource(_) => consts::ETHERNET_SOURCE,
            FlowMatchField::EthernetType(_) => consts::ETHERNET_TYPE,
            FlowMatchField::VlanId(_) => consts::VLAN_ID,
            FlowMatchField::VlanPriority(_) => consts::VLAN_PRIORITY,
            FlowMatchField::IpDscp(_) => consts::IP_DSCP,
            FlowMatchField::IpEcn(_) => consts::IP_ECN,
            FlowMatchField::IpProtocol(_) => consts::IP_PROTOCOL,
            FlowMatchField::Ipv4Source(_) => consts::IPV4_SOURCE,
            FlowMatchField::Ipv4Destination(_) => consts::IPV4_DESTINATION,
            FlowMatchField::TcpSource(_) => consts::TCP_SOURCE,
            FlowMatchField::TcpDestination(_) => consts::TCP_DESTINATION,
            FlowMatchField::UdpSource(_) => consts::UDP_SOURCE,
            FlowMatchField::UdpDestination(_) => consts::UDP_DESTINATION,
            FlowMatchField::SctpSource(_) => consts::SCTP_SOURCE,
            FlowMatchField::SctpDestination(_) => consts::SCTP_DESTINATION,
            FlowMatchField::IcmpType(_) => consts::ICMP_TYPE,
            FlowMatchField::IcmpCode(_) => consts::ICMP_CODE,
            FlowMatchField::ArpOpCode(_) => consts::ARP_OP_CODE,
            FlowMatchField::ArpSpa(_) => consts::ARP_SPA,
            FlowMatchField::ArpTpa(_) => consts::ARP_TPA,
            FlowMatchField::ArpSha(_) => consts::ARP_SHA,
            FlowMatchField::ArpTha(_) => consts::ARP_THA,
            FlowMatchField::Ipv6Source(_) => consts::IPV6_SOURCE,
            FlowMatchField::Ipv6Destination(_) => consts::IPV6_DESTINATION,
            FlowMatchField::Ipv6FlowLabel(_) => consts::IPV6_FLOW_LABEL,
            FlowMatchField::Icmpv6Type(_) => consts::ICMPV6_TYPE,
            FlowMatchField::Icmpv6Code(_) => consts::ICMPV6_CODE,
            FlowMatchField::Ipv6NdTarget(_) => consts::IPV6_ND_TARGET,
            FlowMatchField::Ipv6NdSll(_) => consts::IPV6_ND_SLL,
            FlowMatchField::Ipv6NdTll(_) => consts::IPV6_ND_TLL,
            FlowMatchField::MplsLabel(_) => consts::MPLS_LABEL,
            FlowMatchField::MplsTc(_) => consts::MPLS_TC,
            FlowMatchField::MplsBos(_) => consts::MPLS_BOS,
            FlowMatchField::PbbIsid(_) => consts::PBB_ISID,
            FlowMatchField::TunnelId(_) => consts::TUNNEL_ID,
            FlowMatchField::Ipv6ExtensionHeader(_) => consts::IPV6_EXTENSION_HEADER,
            FlowMatchField::PbbUca(_) => consts::PBB_UCA,
            FlowMatchField::TcpFlags(_) => consts::TCP_FLAGS,
            FlowMatchField::ActionSetOutput(_) => consts::ACTION_SET_OUTPUT,
            FlowMatchField::PacketType(_) => consts::PACKET_TYPE,
        }
    }

    fn has_mask_flag(&self) -> (r: bool)
        ensures
            r == self.spec_has_mask(),
    {
        match self {
            FlowMatchField::InPort(x) => x.has_mask(),
            FlowMatchField::InPhysicalPort(x) => x.has_mask(),
            FlowMatchField::Metadata(x) => x.has_mask(),
            FlowMatchField::EthernetDestination(x) => x.has_mask(),
            FlowMatchField::EthernetSource(x) => x.has_mask(),
            FlowMatchField::EthernetType(x) => x.has_mask(),
            FlowMatchField::VlanId(x) => x.has_mask(),
            FlowMatchField::VlanPriority(x) => x.has_mask(),
            FlowMatchField::IpDscp(x) => x.has_mask(),
            FlowMatchField::IpEcn(x) => x.has_mask(),
            FlowMatchField::IpProtocol(x) => x.has_mask(),
            FlowMatchField::Ipv4Source(x) => x.has_mask(),
            FlowMatchField::Ipv4Destination(x) => x.has_mask(),
            FlowMatchField::TcpSource(x) => x.has_mask(),
            FlowMatchField::TcpDestination(x) => x.has_mask(),
            FlowMatchField::UdpSource(x) => x.has_mask(),
            FlowMatchField::UdpDestination(x) => x.has_mask(),
            FlowMatchField::SctpSource(x) => x.has_mask(),
            FlowMatchField::SctpDestination(x) => x.has_mask(),
            FlowMatchField::IcmpType(x) => x.has_mask(),
            FlowMatchField::IcmpCode(x) => x.has_mask(),
            FlowMatchField::ArpOpCode(x) => x.has_mask(),
            FlowMatchField::ArpSpa(x) => x.has_mask(),
            FlowMatchField::ArpTpa(x) => x.has_mask(),
            FlowMatchField::ArpSha(x) => x.has_mask(),
            FlowMatchField::ArpTha(x) => x.has_mask(),
            FlowMatchField::Ipv6Source(x) => x.has_mask(),
            FlowMatchField::Ipv6Destination(x) => x.has_mask(),
            FlowMatchField::Ipv6FlowLabel(x) => x.has_mask(),
            FlowMatchField::Icmpv6Type(x) => x.has_mask(),
            FlowMatchField::Icmpv6Code(x) => x.has_mask(),
            FlowMatchField::Ipv6NdTarget(x) => x.has_mask(),
            FlowMatchField::Ipv6NdSll(x) => x.has_mask(),
            FlowMatchField::Ipv6NdTll(x) => x.has_mask(),
            FlowMatchField::MplsLabel(x) => x.has_mask(),
            FlowMatchField::MplsTc(x) => x.has_mask(),
            FlowMatchField::MplsBos(x) => x.has_mask(),
            FlowMatchField::PbbIsid(x) => x.has_mask(),
            FlowMatchField::TunnelId(x) => x.has_mask(),
            FlowMatchField::Ipv6ExtensionHeader(x) => x.has_mask(),
            FlowMatchField::PbbUca(x) => x.has_mask(),
            FlowMatchField::TcpFlags(x) => x.has_mask(),
            FlowMatchField::ActionSetOutput(x) => x.has_mask(),
            FlowMatchField::PacketType(x) => x.has_mask(),
        }
    }

    fn value_len_of(&self) -> (r: usize)
        ensures
            r == self.spec_value_bytes().len(),
            1 <= r <= 32,
    {
        match self {
            FlowMatchField::InPort(x) => x.value_len(),
            FlowMatchField::InPhysicalPort(x) => x.value_len(),
            FlowMatchField::Metadata(x) => x.value_len(),
            FlowMatchField::EthernetDestination(x) => x.value_len(),
            FlowMatchField::EthernetSource(x) => x.value_len(),
            FlowMatchField::EthernetType(x) => x.value_len(),
            FlowMatchField::VlanId(x) => x.value_len(),
            FlowMatchField::VlanPriority(x) => x.value_len(),
            FlowMatchField::IpDscp(x) => x.value_len(),
            FlowMatchField::IpEcn(x) => x.value_len(),
            FlowMatchField::IpProtocol(x) => x.value_len(),
            FlowMatchField::Ipv4Source(x) => x.value_len(),
            FlowMatchField::Ipv4Destination(x) => x.value_len(),
            FlowMatchField::TcpSource(x) => x.value_len(),
            FlowMatchField::TcpDestination(x) => x.value_len(),
            FlowMatchField::UdpSource(x) => x.value_len(),
            FlowMatchField::UdpDestination(x) => x.value_len(),
            FlowMatchField::SctpSource(x) => x.value_len(),
            FlowMatchField::SctpDestination(x) => x.value_len(),
            FlowMatchField::IcmpType(x) => x.value_len(),
            FlowMatchField::IcmpCode(x) => x.value_len(),
            FlowMatchField::ArpOpCode(x) => x.value_len(),
            FlowMatchField::ArpSpa(x) => x.value_len(),
            FlowMatchField::ArpTpa(x) => x.value_len(),
            FlowMatchField::ArpSha(x) => x.value_len(),
            FlowMatchField::ArpTha(x) => x.value_len(),
            FlowMatchField::Ipv6Source(x) => x.value_len(),
            FlowMatchField::Ipv6Destination(x) => x.value_len(),
            FlowMatchField::Ipv6FlowLabel(x) => x.value_len(),
            FlowMatchField::Icmpv6Type(x) => x.value_len(),
            FlowMatchField::Icmpv6Code(x) => x.value_len(),
            FlowMatchField::Ipv6NdTarget(x) => x.value_len(),
            FlowMatchField::Ipv6NdSll(x) => x.value_len(),
            FlowMatchField::Ipv6NdTll(x) => x.value_len(),
            FlowMatchField::MplsLabel(x) => x.value_len(),
            FlowMatchField::MplsTc(x) => x.value_len(),
            FlowMatchField::MplsBos(x) => x.value_len(),
            FlowMatchField::PbbIsid(x) => x.value_len(),
            FlowMatchField::TunnelId(x) => x.value_len(),
            FlowMatchField::Ipv6ExtensionHeader(x) => x.value_len(),
            FlowMatchField::PbbUca(x) => x.value_len(),
            FlowMatchField::TcpFlags(x) => x.value_len(),
            FlowMatchField::ActionSetOutput(x) => x.value_len(),
            FlowMatchField::PacketType(x) => x.value_len(),
        }
    }

    fn emit_value_dispatch(&self, buf: &mut [u8], off: usize)
        requires
            off + self.spec_value_bytes().len() <= old(buf)@.len(),
        ensures
            final(buf)@ == wire::splice(old(buf)@, off as int, self.spec_value_bytes()),
    {
        match self {
            FlowMatchField::InPort(x) => x.emit_value_at(buf, off),
            FlowMatchField::InPhysicalPort(x) => x.emit_value_at(buf, off),
            FlowMatchField::Metadata(x) => x.emit_value_at(buf, off),
            FlowMatchField::EthernetDestination(x) => x.emit_value_at(buf, off),
            FlowMatchField::EthernetSource(x) => x.emit_value_at(buf, off),
            FlowMatchField::EthernetType(x) => x.emit_value_at(buf, off),
            FlowMatchField::VlanId(x) => x.emit_value_at(buf, off),
            FlowMatchField::VlanPriority(x) => x.emit_value_at(buf, off),
            FlowMatchField::IpDscp(x) => x.emit_value_at(buf, off),
            FlowMatchField::IpEcn(x) => x.emit_value_at(buf, off),
            FlowMatchField::IpProtocol(x) => x.emit_value_at(buf, off),
            FlowMatchField::Ipv4Source(x) => x.emit_value_at(buf, off),
            FlowMatchField::Ipv4Destination(x) => x.emit_value_at(buf, off),
            FlowMatchField::TcpSource(x) => x.emit_value_at(buf, off),
            FlowMatchField::TcpDestination(x) => x.emit_value_at(buf, off),
            FlowMatchField::UdpSource(x) => x.emit_value_at(buf, off),
            FlowMatchField::UdpDestination(x) => x.emit_value_at(buf, off),
            FlowMatchField::SctpSource(x) => x.emit_value_at(buf, off),
            FlowMatchField::SctpDestination(x) => x.emit_value_at(buf, off),
            FlowMatchField::IcmpType(x) => x.emit_value_at(buf, off),
            FlowMatchField::IcmpCode(x) => x.emit_value_at(buf, off),
            FlowMatchField::ArpOpCode(x) => x.emit_value_at(buf, off),
            FlowMatchField::ArpSpa(x) => x.emit_value_at(buf, off),
            FlowMatchField::ArpTpa(x) => x.emit_value_at(buf, off),
            FlowMatchField::ArpSha(x) => x.emit_value_at(buf, off),
            FlowMatchField::ArpTha(x) => x.emit_value_at(buf, off),
            FlowMatchField::Ipv6Source(x) => x.emit_value_at(buf, off),
            FlowMatchField::Ipv6Destination(x) => x.emit_value_at(buf, off),
            FlowMatchField::Ipv6FlowLabel(x) => x.emit_value_at(buf, off),
            FlowMatchField::Icmpv6Type(x) => x.emit_value_at(buf, off),
            FlowMatchField::Icmpv6Code(x) => x.emit_value_at(buf, off),
            FlowMatchField::Ipv6NdTarget(x) => x.emit_value_at(buf, off),
            FlowMatchField::Ipv6NdSll(x) => x.emit_value_at(buf, off),
            FlowMatchField::Ipv6NdTll(x) => x.emit_value_at(buf, off),
            FlowMatchField::MplsLabel(x) => x.emit_value_at(buf, off),
            FlowMatchField::MplsTc(x) => x.emit_value_at(buf, off),
            FlowMatchField::MplsBos(x) => x.emit_value_at(buf, off),
            FlowMatchField::PbbIsid(x) => x.emit_value_at(buf, off),
            FlowMatchField::TunnelId(x) => x.emit_value_at(buf, off),
            FlowMatchField::Ipv6ExtensionHeader(x) => x.emit_value_at(buf, off),
            FlowMatchField::PbbUca(x) => x.emit_value_at(buf, off),
            FlowMatchField::TcpFlags(x) => x.emit_value_at(buf, off),
            FlowMatchField::ActionSetOutput(x) => x.emit_value_at(buf, off),
            FlowMatchField::PacketType(x) => x.emit_value_at(buf, off),
        }
    }

    /// The length of the TLV this field emits: 4 header bytes plus the
    /// payload.
    pub fn buffer_len(&self) -> (r: usize)
        ensures
            r == self.spec_wire().len(),
            5 <= r <= 36,
    {
        4 + self.value_len_of()
    }

    /// Emit this field's TLV at the start of `buffer`.
    pub fn emit(&self, buffer: &mut [u8]) -> (r: Result<(), Error>)
        ensures
            final(buffer)@.len() == old(buffer)@.len(),
            self.spec_wire().len() <= old(buffer)@.len() ==> (r matches Ok(()))
                && final(buffer)@ == wire::splice(old(buffer)@, 0, self.spec_wire()),
            self.spec_wire().len() > old(buffer)@.len() ==> (r matches Err(e)
                && e == Error::Exhausted) && final(buffer)@ == old(buffer)@,
    {
        self.emit_at(buffer, 0)
    }

    /// Emit this field's TLV into `buffer` at `offset`.
    pub fn emit_at(&self, buffer: &mut [u8], offset: usize) -> (r: Result<(), Error>)
        ensures
            final(buffer)@.len() == old(buffer)@.len(),
            offset + self.spec_wire().len() <= old(buffer)@.len() ==> (r matches Ok(()))
                && final(buffer)@ == wire::splice(old(buffer)@, offset as int, self.spec_wire()),
            offset + self.spec_wire().len() > old(buffer)@.len() ==> (r matches Err(e)
                && e == Error::Exhausted) && final(buffer)@ == old(buffer)@,
    {
        let n = self.buffer_len();
        if !wire::fits(buffer.len(), offset, n) {
            return Err(Error::Exhausted);
        }
        let code = self.field_code();
        let hm = self.has_mask_flag();
        let vl = self.value_len_of();
        let fb: u8 = (code << 1) | (if hm { 1 } else { 0 });
        wire::write_u8_at(buffer, offset, 0x80);
        wire::write_u8_at(buffer, offset + 1, 0x00);
        wire::write_u8_at(buffer, offset + 2, fb);
        wire::write_u8_at(buffer, offset + 3, vl as u8);
        self.emit_value_dispatch(buffer, offset + 4);
        proof {
            let o = old(buffer)@;
            let voff = offset as int;
            let vb = self.spec_value_bytes();
            wire::lemma_splice_adjacent(o, voff, seq![0x80u8], seq![0x00u8]);
            wire::lemma_splice_adjacent(o, voff, seq![0x80u8] + seq![0x00u8], seq![fb]);
            wire::lemma_splice_adjacent(o, voff, seq![0x80u8] + seq![0x00u8] + seq![fb],
                seq![(vl as u8)]);
            wire::lemma_splice_adjacent(o, voff,
                seq![0x80u8] + seq![0x00u8] + seq![fb] + seq![(vl as u8)], vb);
            assert(seq![0x80u8] + seq![0x00u8] + seq![fb] + seq![(vl as u8)] + vb
                =~= self.spec_wire());
        }
        Ok(())
    }

    /// For every standard field: parsing the TLV it emits, whatever bytes
    /// follow it, yields the field back unchanged.
    pub proof fn lemma_roundtrip(fd: FlowMatchField, rest: Seq<u8>)
        requires
            fd.spec_wf(),
        ensures
            5 <= fd.spec_wire().len(),
            fd.spec_wire().len() == 4 + fd.spec_value_bytes().len(),
            packet::tlv_class(fd.spec_wire() + rest) == 0x8000,
            packet::tlv_len_ok(fd.spec_wire() + rest),
            FlowMatchField::spec_parse(fd.spec_wire() + rest) == Ok::<FlowMatchField, Error>(fd),
    {
        Self::lemma_wire_facts(fd);
        match fd {
            FlowMatchField::InPort(x) => InPort::lemma_roundtrip(x, rest),
            FlowMatchField::InPhysicalPort(x) => InPhysicalPort::lemma_roundtrip(x, rest),
            FlowMatchField::Metadata(x) => Metadata::lemma_roundtrip(x, rest),
            FlowMatchField::EthernetDestination(x) => EthernetDestination::lemma_roundtrip(x, rest),
            FlowMatchField::EthernetSource(x) => EthernetSource::lemma_roundtrip(x, rest),
            FlowMatchField::EthernetType(x) => EthernetType::lemma_roundtrip(x, rest),
            FlowMatchField::VlanId(x) => VlanId::lemma_roundtrip(x, rest),
            FlowMatchField::VlanPriority(x) => VlanPriority::lemma_roundtrip(x, rest),
            FlowMatchField::IpDscp(x) => IpDscp::lemma_roundtrip(x, rest),
            FlowMatchField::IpEcn(x) => IpEcn::lemma_roundtrip(x, rest),
            FlowMatchField::IpProtocol(x) => IpProtocol::lemma_roundtrip(x, rest),
            FlowMatchField::Ipv4Source(x) => Ipv4Source::lemma_roundtrip(x, rest),
            FlowMatchField::Ipv4Destination(x) => Ipv4Destination::lemma_roundtrip(x, rest),
            FlowMatchField::TcpSource(x) => TcpSource::lemma_roundtrip(x, rest),
            FlowMatchField::TcpDestination(x) => TcpDestination::lemma_roundtrip(x, rest),
            FlowMatchField::UdpSource(x) => UdpSource::lemma_roundtrip(x, rest),
            FlowMatchField::UdpDestination(x) => UdpDestination::lemma_roundtrip(x, rest),
            FlowMatchField::SctpSource(x) => SctpSource::lemma_roundtrip(x, rest),
            FlowMatchField::SctpDestination(x) => SctpDestination::lemma_roundtrip(x, rest),
            FlowMatchField::IcmpType(x) => IcmpType::lemma_roundtrip(x, rest),
            FlowMatchField::IcmpCode(x) => IcmpCode::lemma_roundtrip(x, rest),
            FlowMatchField::ArpOpCode(x) => ArpOpCode::lemma_roundtrip(x, rest),
            FlowMatchField::ArpSpa(x) => ArpSpa::lemma_roundtrip(x, rest),
            FlowMatchField::ArpTpa(x) => ArpTpa::lemma_roundtrip(x, rest),
            FlowMatchField::ArpSha(x) => ArpSha::lemma_roundtrip(x, rest),
            FlowMatchField::ArpTha(x) => ArpTha::lemma_roundtrip(x, rest),
            FlowMatchField::Ipv6Source(x) => Ipv6Source::lemma_roundtrip(x, rest),
            FlowMatchField::Ipv6Destination(x) => Ipv6Destination::lemma_roundtrip(x, rest),
            FlowMatchField::Ipv6FlowLabel(x) => Ipv6FlowLabel::lemma_roundtrip(x, rest),
            FlowMatchField::Icmpv6Type(x) => Icmpv6Type::lemma_roundtrip(x, rest),
            FlowMatchField::Icmpv6Code(x) => Icmpv6Code::lemma_roundtrip(x, rest),
            FlowMatchField::Ipv6NdTarget(x) => Ipv6NdTarget::lemma_roundtrip(x, rest),
            FlowMatchField::Ipv6NdSll(x) => Ipv6NdSll::lemma_roundtrip(x, rest),
            FlowMatchField::Ipv6NdTll(x) => Ipv6NdTll::lemma_roundtrip(x, rest),
            FlowMatchField::MplsLabel(x) => MplsLabel::lemma_roundtrip(x, rest),
            FlowMatchField::MplsTc(x) => MplsTc::lemma_roundtrip(x, rest),
            FlowMatchField::MplsBos(x) => MplsBos::lemma_roundtrip(x, rest),
            FlowMatchField::PbbIsid(x) => PbbIsid::lemma_roundtrip(x, rest),
            FlowMatchField::TunnelId(x) => TunnelId::lemma_roundtrip(x, rest),
            FlowMatchField::Ipv6ExtensionHeader(x) => Ipv6ExtensionHeader::lemma_roundtrip(x, rest),
            FlowMatchField::PbbUca(x) => PbbUca::lemma_roundtrip(x, rest),
            FlowMatchField::TcpFlags(x) => TcpFlags::lemma_roundtrip(x, rest),
            FlowMatchField::ActionSetOutput(x) => ActionSetOutput::lemma_roundtrip(x, rest),
            FlowMatchField::PacketType(x) => PacketType::lemma_roundtrip(x, rest),
        }
    }

    /// How the wire image of any field reads back, whatever its values.
    pub proof fn lemma_wire_facts(fd: FlowMatchField)
        ensures
            fd.spec_code() < 0x80,
            1 <= fd.spec_value_bytes().len() <= 32,
            fd.spec_wire().len() == 4 + fd.spec_value_bytes().len(),
            packet::tlv_class(fd.spec_wire()) == 0x8000,
            packet::tlv_field(fd.spec_wire()) == fd.spec_code(),
            packet::tlv_has_mask(fd.spec_wire()) == fd.spec_has_mask(),
            packet::tlv_length(fd.spec_wire()) == fd.spec_value_bytes().len(),
    {
        match fd {
            FlowMatchField::InPort(x) => {
                assert(x.spec_value_bytes().len() <= 0xff);
                lemma_std_tlv_header(consts::IN_PORT, x.spec_has_mask(), x.spec_value_bytes());
            },
            FlowMatchField::InPhysicalPort(x) => {
                assert(x.spec_value_bytes().len() <= 0xff);
                lemma_std_tlv_header(consts::IN_PHYSICAL_PORT, x.spec_has_mask(), x.spec_value_bytes());
            },
            FlowMatchField::Metadata(x) => {
                assert(x.spec_value_bytes().len() <= 0xff);
                lemma_std_tlv_header(consts::METADATA, x.spec_has_mask(), x.spec_value_bytes());
            },
            FlowMatchField::EthernetDestination(x) => {
                assert(x.spec_value_bytes().len() <= 0xff);
                lemma_std_tlv_header(consts::ETHERNET_DESTINATION, x.spec_has_mask(), x.spec_value_bytes());
            },
            FlowMatchField::EthernetSource(x) => {
                assert(x.spec_value_bytes().len() <= 0xff);
                lemma_std_tlv_header(consts::ETHERNET_SOURCE, x.spec_has_mask(), x.spec_value_bytes());
            },
            FlowMatchField::EthernetType(x) => {
                assert(x.spec_value_bytes().len() <= 0xff);
                lemma_std_tlv_header(consts::ETHERNET_TYPE, x.spec_has_mask(), x.spec_value_bytes());
            },
            FlowMatchField::VlanId(x) => {
                assert(x.spec_value_bytes().len() <= 0xff);
                lemma_std_tlv_header(consts::VLAN_ID, x.spec_has_mask(), x.spec_value_bytes());
            },
            FlowMatchField::VlanPriority(x) => {
                assert(x.spec_value_bytes().len() <= 0xff);
                lemma_std_tlv_header(consts::VLAN_PRIORITY, x.spec_has_mask(), x.spec_value_bytes());
            },
            FlowMatchField::IpDscp(x) => {
                assert(x.spec_value_bytes().len() <= 0xff);
                lemma_std_tlv_header(consts::IP_DSCP, x.spec_has_mask(), x.spec_value_bytes());
            },
            FlowMatchField::IpEcn(x) => {
                assert(x.spec_value_bytes().len() <= 0xff);
                lemma_std_tlv_header(consts::IP_ECN, x.spec_has_mask(), x.spec_value_bytes());
            },
            FlowMatchField::IpProtocol(x) => {
                assert(x.spec_value_bytes().len() <= 0xff);
                lemma_std_tlv_header(consts::IP_PROTOCOL, x.spec_has_mask(), x.spec_value_bytes());
            },
            FlowMatchField::Ipv4Source(x) => {
                assert(x.spec_value_bytes().len() <= 0xff);
                lemma_std_tlv_header(consts::IPV4_SOURCE, x.spec_has_mask(), x.spec_value_bytes());
            },
            FlowMatchField::Ipv4Destination(x) => {
                assert(x.spec_value_bytes().len() <= 0xff);
                lemma_std_tlv_header(consts::IPV4_DESTINATION, x.spec_has_mask(), x.spec_value_bytes());
            },
            FlowMatchField::TcpSource(x) => {
                assert(x.spec_value_bytes().len() <= 0xff);
                lemma_std_tlv_header(consts::TCP_SOURCE, x.spec_has_mask(), x.spec_value_bytes());
            },
            FlowMatchField::TcpDestination(x) => {
                assert(x.spec_value_bytes().len() <= 0xff);
                lemma_std_tlv_header(consts::TCP_DESTINATION, x.spec_has_mask(), x.spec_value_bytes());
            },
            FlowMatchField::UdpSource(x) => {
                assert(x.spec_value_bytes().len() <= 0xff);
                lemma_std_tlv_header(consts::UDP_SOURCE, x.spec_has_mask(), x.spec_value_bytes());
            },
            FlowMatchField::UdpDestination(x) => {
                assert(x.spec_value_bytes().len() <= 0xff);
                lemma_std_tlv_header(consts::UDP_DESTINATION, x.spec_has_mask(), x.spec_value_bytes());
            },
            FlowMatchField::SctpSource(x) => {
                assert(x.spec_value_bytes().len() <= 0xff);
                lemma_std_tlv_header(consts::SCTP_SOURCE, x.spec_has_mask(), x.spec_value_bytes());
            },
            FlowMatchField::SctpDestination(x) => {
                assert(x.spec_value_bytes().len() <= 0xff);
                lemma_std_tlv_header(consts::SCTP_DESTINATION, x.spec_has_mask(), x.spec_value_bytes());
            },
            FlowMatchField::IcmpType(x) => {
                assert(x.spec_value_bytes().len() <= 0xff);
                lemma_std_tlv_header(consts::ICMP_TYPE, x.spec_has_mask(), x.spec_value_bytes());
            },
            FlowMatchField::IcmpCode(x) => {
                assert(x.spec_value_bytes().len() <= 0xff);
                lemma_std_tlv_header(consts::ICMP_CODE, x.spec_has_mask(), x.spec_value_bytes());
            },
            FlowMatchField::ArpOpCode(x) => {
                assert(x.spec_value_bytes().len() <= 0xff);
                lemma_std_tlv_header(consts::ARP_OP_CODE, x.spec_has_mask(), x.spec_value_bytes());
            },
            FlowMatchField::ArpSpa(x) => {
                assert(x.spec_value_bytes().len() <= 0xff);
                lemma_std_tlv_header(consts::ARP_SPA, x.spec_has_mask(), x.spec_value_bytes());
            },
            FlowMatchField::ArpTpa(x) => {
                assert(x.spec_value_bytes().len() <= 0xff);
                lemma_std_tlv_header(consts::ARP_TPA, x.spec_has_mask(), x.spec_value_bytes());
            },
            FlowMatchField::ArpSha(x) => {
                assert(x.spec_value_bytes().len() <= 0xff);
                lemma_std_tlv_header(consts::ARP_SHA, x.spec_has_mask(), x.spec_value_bytes());
            },
            FlowMatchField::ArpTha(x) => {
                assert(x.spec_value_bytes().len() <= 0xff);
                lemma_std_tlv_header(consts::ARP_THA, x.spec_has_mask(), x.spec_value_bytes());
            },
            FlowMatchField::Ipv6Source(x) => {
                assert(x.spec_value_bytes().len() <= 0xff);
                lemma_std_tlv_header(consts::IPV6_SOURCE, x.spec_has_mask(), x.spec_value_bytes());
            },
            FlowMatchField::Ipv6Destination(x) => {
                assert(x.spec_value_bytes().len() <= 0xff);
                lemma_std_tlv_header(consts::IPV6_DESTINATION, x.spec_has_mask(), x.spec_value_bytes());
            },
            FlowMatchField::Ipv6FlowLabel(x) => {
                assert(x.spec_value_bytes().len() <= 0xff);
                lemma_std_tlv_header(consts::IPV6_FLOW_LABEL, x.spec_has_mask(), x.spec_value_bytes());
            },
            FlowMatchField::Icmpv6Type(x) => {
                assert(x.spec_value_bytes().len() <= 0xff);
                lemma_std_tlv_header(consts::ICMPV6_TYPE, x.spec_has_mask(), x.spec_value_bytes());
            },
            FlowMatchField::Icmpv6Code(x) => {
                assert(x.spec_value_bytes().len() <= 0xff);
                lemma_std_tlv_header(consts::ICMPV6_CODE, x.spec_has_mask(), x.spec_value_bytes());
            },
            FlowMatchField::Ipv6NdTarget(x) => {
                assert(x.spec_value_bytes().len() <= 0xff);
                lemma_std_tlv_header(consts::IPV6_ND_TARGET, x.spec_has_mask(), x.spec_value_bytes());
            },
            FlowMatchField::Ipv6NdSll(x) => {
                assert(x.spec_value_bytes().len() <= 0xff);
                lemma_std_tlv_header(consts::IPV6_ND_SLL, x.spec_has_mask(), x.spec_value_bytes());
            },
            FlowMatchField::Ipv6NdTll(x) => {
                assert(x.spec_value_bytes().len() <= 0xff);
                lemma_std_tlv_header(consts::IPV6_ND_TLL, x.spec_has_mask(), x.spec_value_bytes());
            },
            FlowMatchField::MplsLabel(x) => {
                assert(x.spec_value_bytes().len() <= 0xff);
                lemma_std_tlv_header(consts::MPLS_LABEL, x.spec_has_mask(), x.spec_value_bytes());
            },
            FlowMatchField::MplsTc(x) => {
                assert(x.spec_value_bytes().len() <= 0xff);
                lemma_std_tlv_header(consts::MPLS_TC, x.spec_has_mask(), x.spec_value_bytes());
            },
            FlowMatchField::MplsBos(x) => {
                assert(x.spec_value_bytes().len() <= 0xff);
                lemma_std_tlv_header(consts::MPLS_BOS, x.spec_has_mask(), x.spec_value_bytes());
            },
            FlowMatchField::PbbIsid(x) => {
                assert(x.spec_value_bytes().len() <= 0xff);
                lemma_std_tlv_header(consts::PBB_ISID, x.spec_has_mask(), x.spec_value_bytes());
            },
            FlowMatchField::TunnelId(x) => {
                assert(x.spec_value_bytes().len() <= 0xff);
                lemma_std_tlv_header(consts::TUNNEL_ID, x.spec_has_mask(), x.spec_value_bytes());
            },
            FlowMatchField::Ipv6ExtensionHeader(x) => {
                assert(x.spec_value_bytes().len() <= 0xff);
                lemma_std_tlv_header(consts::IPV6_EXTENSION_HEADER, x.spec_has_mask(), x.spec_value_bytes());
            },
            FlowMatchField::PbbUca(x) => {
                assert(x.spec_value_bytes().len() <= 0xff);
                lemma_std_tlv_header(consts::PBB_UCA, x.spec_has_mask(), x.spec_value_bytes());
            },
            FlowMatchField::TcpFlags(x) => {
                assert(x.spec_value_bytes().len() <= 0xff);
                lemma_std_tlv_header(consts::TCP_FLAGS, x.spec_has_mask(), x.spec_value_bytes());
            },
            FlowMatchField::ActionSetOutput(x) => {
                assert(x.spec_value_bytes().len() <= 0xff);
                lemma_std_tlv_header(consts::ACTION_SET_OUTPUT, x.spec_has_mask(), x.spec_value_bytes());
            },
            FlowMatchField::PacketType(x) => {
                assert(x.spec_value_bytes().len() <= 0xff);
                lemma_std_tlv_header(consts::PACKET_TYPE, x.spec_has_mask(), x.spec_value_bytes());
            },
        }
    }
}

} // verus!
