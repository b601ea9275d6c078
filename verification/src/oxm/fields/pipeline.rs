//! The standard flow match fields that describe pipeline metadata rather
//! than packet header contents.

use vstd::prelude::*;

use crate::oxm::fields::consts;
use crate::oxm::fields::FlowMatchField;
use crate::oxm::packet::Packet;
use crate::port::PortNumber;
use crate::wire;
use crate::Error;

verus! {


/// Switch input port.  32-bit integer, not maskable.
#[derive(Debug, PartialEq, Eq, Clone)]
pub struct InPort(pub u32);

impl InPort {
    /// Always true: every stored value is significant in full.
    pub open spec fn spec_wf(&self) -> bool {
        true
    }

    pub open spec fn spec_has_mask(&self) -> bool {
        false
    }

    /// The payload bytes of this field.
    pub open spec fn spec_value_bytes(&self) -> Seq<u8> {
        wire::spec_u32_be(self.0)
    }

    /// What parsing a standard TLV as this field yields.
    pub open spec fn spec_parse_tlv(b: Seq<u8>) -> Result<FlowMatchField, Error> {
        if b.len() < 4 + 4 {
            Err(Error::Truncated)
        } else {
            Ok(FlowMatchField::InPort(InPort(wire::spec_read_u32(b, 4))))
        }
    }

    /// Create a new `InPort` field.
    pub fn new(value: u32) -> (r: Self)
        ensures
            r == InPort(value),
            r.spec_wf(),
    {
        InPort(value)
    }

    /// Replace the value.
    pub fn set_value(&mut self, value: u32)
        ensures
            *final(self) == InPort(value),
            final(self).spec_wf(),
    {
        self.0 = value;
    }

    /// The payload length in bytes.
    pub fn value_len(&self) -> (r: usize)
        ensures
            r == self.spec_value_bytes().len(),
            r == 4,
    {
        4
    }

    /// This field never carries a mask.
    pub fn has_mask(&self) -> (r: bool)
        ensures
            r == self.spec_has_mask(),
            r == false,
    {
        false
    }

    /// The `oxm_field` code of this field.
    pub fn code() -> (r: u8)
        ensures
            r == consts::IN_PORT,
    {
        consts::IN_PORT
    }

    /// Parse the payload of a checked standard TLV as this field.
    pub(crate) fn parse_tlv(packet: &Packet<'_>) -> (r: Result<FlowMatchField, Error>)
        requires
            packet.bytes().len() >= 4,
        ensures
            r == Self::spec_parse_tlv(packet.bytes()),
            r matches Ok(f) ==> f.spec_wf() && 5 <= f.spec_wire().len() <= packet.bytes().len(),
    {
        let value = packet.value();
        if value.len() < 4 {
            return Err(Error::Truncated);
        }
        let v = wire::read_u32_at(value, 0);
        Ok(FlowMatchField::InPort(InPort::new(v)))
    }

    /// Write the payload bytes at `buf[off]`.
    pub(crate) fn emit_value_at(&self, buf: &mut [u8], off: usize)
        requires
            off + self.spec_value_bytes().len() <= old(buf)@.len(),
        ensures
            final(buf)@ == wire::splice(old(buf)@, off as int, self.spec_value_bytes()),
    {
        wire::write_u32_at(buf, off, self.0);
    }

    /// Parsing the TLV this field emits, whatever bytes follow it,
    /// yields the field back.
    pub(crate) proof fn lemma_roundtrip(f: Self, rest: Seq<u8>)
        requires
            f.spec_wf(),
        ensures
            FlowMatchField::InPort(f).spec_wire().len() >= 5,
            crate::oxm::packet::tlv_class(FlowMatchField::InPort(f).spec_wire() + rest) == 0x8000,
            crate::oxm::packet::tlv_field(FlowMatchField::InPort(f).spec_wire() + rest) == consts::IN_PORT,
            crate::oxm::packet::tlv_length(FlowMatchField::InPort(f).spec_wire() + rest) == f.spec_value_bytes().len(),
            Self::spec_parse_tlv(FlowMatchField::InPort(f).spec_wire() + rest) == Ok::<FlowMatchField, Error>(FlowMatchField::InPort(f)),
    {
        let vb = f.spec_value_bytes();
        let w = FlowMatchField::InPort(f).spec_wire();
        let b = w + rest;
        super::lemma_std_tlv_header(consts::IN_PORT, f.spec_has_mask(), vb);
        assert forall|k: int| 0 <= k < w.len() implies b[k] == super::std_tlv(consts::IN_PORT,
            f.spec_has_mask(), vb)[k] by {}
        wire::lemma_u32_roundtrip(b, 4, f.0);
    }
}

/// Switch physical input port.  32-bit integer, not maskable.
#[derive(Debug, PartialEq, Eq, Clone)]
pub struct InPhysicalPort(pub u32);

impl InPhysicalPort {
    /// Always true: every stored value is significant in full.
    pub open spec fn spec_wf(&self) -> bool {
        true
    }

    pub open spec fn spec_has_mask(&self) -> bool {
        false
    }

    /// The payload bytes of this field.
    pub open spec fn spec_value_bytes(&self) -> Seq<u8> {
        wire::spec_u32_be(self.0)
    }

    /// What parsing a standard TLV as this field yields.
    pub open spec fn spec_parse_tlv(b: Seq<u8>) -> Result<FlowMatchField, Error> {
        if b.len() < 4 + 4 {
            Err(Error::Truncated)
        } else {
            Ok(FlowMatchField::InPhysicalPort(InPhysicalPort(wire::spec_read_u32(b, 4))))
        }
    }

    /// Create a new `InPhysicalPort` field.
    pub fn new(value: u32) -> (r: Self)
        ensures
            r == InPhysicalPort(value),
            r.spec_wf(),
    {
        InPhysicalPort(value)
    }

    /// Replace the value.
    pub fn set_value(&mut self, value: u32)
        ensures
            *final(self) == InPhysicalPort(value),
            final(self).spec_wf(),
    {
        self.0 = value;
    }

    /// The payload length in bytes.
    pub fn value_len(&self) -> (r: usize)
        ensures
            r == self.spec_value_bytes().len(),
            r == 4,
    {
        4
    }

    /// This field never carries a mask.
    pub fn has_mask(&self) -> (r: bool)
        ensures
            r == self.spec_has_mask(),
            r == false,
    {
        false
    }

    /// The `oxm_field` code of this field.
    pub fn code() -> (r: u8)
        ensures
            r == consts::IN_PHYSICAL_PORT,
    {
        consts::IN_PHYSICAL_PORT
    }

    /// Parse the payload of a checked standard TLV as this field.
    pub(crate) fn parse_tlv(packet: &Packet<'_>) -> (r: Result<FlowMatchField, Error>)
        requires
            packet.bytes().len() >= 4,
        ensures
            r == Self::spec_parse_tlv(packet.bytes()),
            r matches Ok(f) ==> f.spec_wf() && 5 <= f.spec_wire().len() <= packet.bytes().len(),
    {
        let value = packet.value();
        if value.len() < 4 {
            return Err(Error::Truncated);
        }
        let v = wire::read_u32_at(value, 0);
        Ok(FlowMatchField::InPhysicalPort(InPhysicalPort::new(v)))
    }

    /// Write the payload bytes at `buf[off]`.
    pub(crate) fn emit_value_at(&self, buf: &mut [u8], off: usize)
        requires
            off + self.spec_value_bytes().len() <= old(buf)@.len(),
        ensures
            final(buf)@ == wire::splice(old(buf)@, off as int, self.spec_value_bytes()),
    {
        wire::write_u32_at(buf, off, self.0);
    }

    /// Parsing the TLV this field emits, whatever bytes follow it,
    /// yields the field back.
    pub(crate) proof fn lemma_roundtrip(f: Self, rest: Seq<u8>)
        requires
            f.spec_wf(),
        ensures
            FlowMatchField::InPhysicalPort(f).spec_wire().len() >= 5,
            crate::oxm::packet::tlv_class(FlowMatchField::InPhysicalPort(f).spec_wire() + rest) == 0x8000,
            crate::oxm::packet::tlv_field(FlowMatchField::InPhysicalPort(f).spec_wire() + rest) == consts::IN_PHYSICAL_PORT,
            crate::oxm::packet::tlv_length(FlowMatchField::InPhysicalPort(f).spec_wire() + rest) == f.spec_value_bytes().len(),
            Self::spec_parse_tlv(FlowMatchField::InPhysicalPort(f).spec_wire() + rest) == Ok::<FlowMatchField, Error>(FlowMatchField::InPhysicalPort(f)),
    {
        let vb = f.spec_value_bytes();
        let w = FlowMatchField::InPhysicalPort(f).spec_wire();
        let b = w + rest;
        super::lemma_std_tlv_header(consts::IN_PHYSICAL_PORT, f.spec_has_mask(), vb);
        assert forall|k: int| 0 <= k < w.len() implies b[k] == super::std_tlv(consts::IN_PHYSICAL_PORT,
            f.spec_has_mask(), vb)[k] by {}
        wire::lemma_u32_roundtrip(b, 4, f.0);
    }
}

/// Table metadata passed between tables.  64-bit integer, arbitrary masks.
#[derive(Debug, PartialEq, Eq, Clone)]
pub struct Metadata {
    pub value: u64,
    pub mask: Option<u64>,
}

impl Metadata {
    /// Always true: every stored value is significant in full.
    pub open spec fn spec_wf(&self) -> bool {
        true
    }

    pub open spec fn spec_has_mask(&self) -> bool {
        self.mask is Some
    }

    /// The payload bytes: the value, then the mask when present.
    pub open spec fn spec_value_bytes(&self) -> Seq<u8> {
        match self.mask {
            Some(mk) => wire::spec_u64_be(self.value) + wire::spec_u64_be(mk),
            None => wire::spec_u64_be(self.value),
        }
    }

    /// What parsing a standard TLV as this field yields.
    pub open spec fn spec_parse_tlv(b: Seq<u8>) -> Result<FlowMatchField, Error> {
        if crate::oxm::packet::tlv_has_mask(b) {
            if b.len() < 4 + 16 {
                Err(Error::Truncated)
            } else {
                Ok(FlowMatchField::Metadata(Metadata {
                    value: wire::spec_read_u64(b, 4),
                    mask: Some(wire::spec_read_u64(b, 12)),
                }))
            }
        } else {
            if b.len() < 4 + 8 {
                Err(Error::Truncated)
            } else {
                Ok(FlowMatchField::Metadata(Metadata { value: wire::spec_read_u64(b, 4), mask: None }))
            }
        }
    }

    /// Create a new `Metadata` field from a value and an optional mask.
    pub fn new(value: u64, mask: Option<u64>) -> (r: Self)
        ensures
            r == (Metadata { value, mask }),
            r.spec_wf(),
    {
        Metadata { value, mask }
    }

    /// Replace the value.
    pub fn set_value(&mut self, value: u64)
        ensures
            final(self).value == value,
            final(self).mask == old(self).mask,
            old(self).spec_wf() ==> final(self).spec_wf(),
    {
        self.value = value;
    }

    /// Set the mask.
    pub fn set_mask(&mut self, mask: u64)
        ensures
            final(self).mask == Some(mask),
            final(self).value == old(self).value,
            old(self).spec_wf() ==> final(self).spec_wf(),
    {
        self.mask = Some(mask);
    }

    /// Remove the mask.
    pub fn unset_mask(&mut self)
        ensures
            final(self).mask is None,
            final(self).value == old(self).value,
            old(self).spec_wf() ==> final(self).spec_wf(),
    {
        self.mask = None;
    }

    /// The payload length: the base length, doubled when masked.
    pub fn value_len(&self) -> (r: usize)
        ensures
            r == self.spec_value_bytes().len(),
            self.mask is Some ==> r == 16,
            self.mask is None ==> r == 8,
    {
        if self.mask.is_some() { 16 } else { 8 }
    }

    /// Whether the payload carries a mask.
    pub fn has_mask(&self) -> (r: bool)
        ensures
            r == self.spec_has_mask(),
            r == (self.mask is Some),
    {
        self.mask.is_some()
    }

    /// The `oxm_field` code of this field.
    pub fn code() -> (r: u8)
        ensures
            r == consts::METADATA,
    {
        consts::METADATA
    }

    /// Parse the payload of a checked standard TLV as this field.
    pub(crate) fn parse_tlv(packet: &Packet<'_>) -> (r: Result<FlowMatchField, Error>)
        requires
            packet.bytes().len() >= 4,
        ensures
            r == Self::spec_parse_tlv(packet.bytes()),
            r matches Ok(f) ==> f.spec_wf() && 5 <= f.spec_wire().len() <= packet.bytes().len(),
    {
        let value = packet.value();
        if packet.has_mask() {
            if value.len() < 16 {
                return Err(Error::Truncated);
            }
            let v = wire::read_u64_at(value, 0);
            let mk = wire::read_u64_at(value, 8);
            Ok(FlowMatchField::Metadata(Metadata::new(v, Some(mk))))
        } else {
            if value.len() < 8 {
                return Err(Error::Truncated);
            }
            let v = wire::read_u64_at(value, 0);
            Ok(FlowMatchField::Metadata(Metadata::new(v, None)))
        }
    }

    /// Write the payload bytes at `buf[off]`.
    pub(crate) fn emit_value_at(&self, buf: &mut [u8], off: usize)
        requires
            off + self.spec_value_bytes().len() <= old(buf)@.len(),
        ensures
            final(buf)@ == wire::splice(old(buf)@, off as int, self.spec_value_bytes()),
    {
        wire::write_u64_at(buf, off, self.value);
        match self.mask {
            Some(mk) => {
                let blen = buf.len();
                assert(off + 16 <= blen);
                wire::write_u64_at(buf, off + 8, mk);
                proof {
                    wire::lemma_splice_adjacent(old(buf)@, off as int, wire::spec_u64_be(self.value), wire::spec_u64_be(mk));
                }
            },
            None => {},
        }
    }

    /// Parsing the TLV this field emits, whatever bytes follow it,
    /// yields the field back.
    pub(crate) proof fn lemma_roundtrip(f: Self, rest: Seq<u8>)
        requires
            f.spec_wf(),
        ensures
            FlowMatchField::Metadata(f).spec_wire().len() >= 5,
            crate::oxm::packet::tlv_class(FlowMatchField::Metadata(f).spec_wire() + rest) == 0x8000,
            crate::oxm::packet::tlv_field(FlowMatchField::Metadata(f).spec_wire() + rest) == consts::METADATA,
            crate::oxm::packet::tlv_length(FlowMatchField::Metadata(f).spec_wire() + rest) == f.spec_value_bytes().len(),
            Self::spec_parse_tlv(FlowMatchField::Metadata(f).spec_wire() + rest) == Ok::<FlowMatchField, Error>(FlowMatchField::Metadata(f)),
    {
        let vb = f.spec_value_bytes();
        let w = FlowMatchField::Metadata(f).spec_wire();
        let b = w + rest;
        super::lemma_std_tlv_header(consts::METADATA, f.spec_has_mask(), vb);
        assert forall|k: int| 0 <= k < w.len() implies b[k] == super::std_tlv(consts::METADATA,
            f.spec_has_mask(), vb)[k] by {}
        wire::lemma_u64_roundtrip(b, 4, f.value);
        match f.mask {
            Some(mk) => wire::lemma_u64_roundtrip(b, 12, mk),
            None => (),
        }
    }
}

/// Logical port metadata (tunnel id).  64-bit integer, arbitrary masks.
#[derive(Debug, PartialEq, Eq, Clone)]
pub struct TunnelId {
    pub value: u64,
    pub mask: Option<u64>,
}

impl TunnelId {
    /// Always true: every stored value is significant in full.
    pub open spec fn spec_wf(&self) -> bool {
        true
    }

    pub open spec fn spec_has_mask(&self) -> bool {
        self.mask is Some
    }

    /// The payload bytes: the value, then the mask when present.
    pub open spec fn spec_value_bytes(&self) -> Seq<u8> {
        match self.mask {
            Some(mk) => wire::spec_u64_be(self.value) + wire::spec_u64_be(mk),
            None => wire::spec_u64_be(self.value),
        }
    }

    /// What parsing a standard TLV as this field yields.
    pub open spec fn spec_parse_tlv(b: Seq<u8>) -> Result<FlowMatchField, Error> {
        if crate::oxm::packet::tlv_has_mask(b) {
            if b.len() < 4 + 16 {
                Err(Error::Truncated)
            } else {
                Ok(FlowMatchField::TunnelId(TunnelId {
                    value: wire::spec_read_u64(b, 4),
                    mask: Some(wire::spec_read_u64(b, 12)),
                }))
            }
        } else {
            if b.len() < 4 + 8 {
                Err(Error::Truncated)
            } else {
                Ok(FlowMatchField::TunnelId(TunnelId { value: wire::spec_read_u64(b, 4), mask: None }))
            }
        }
    }

    /// Create a new `TunnelId` field from a value and an optional mask.
    pub fn new(value: u64, mask: Option<u64>) -> (r: Self)
        ensures
            r == (TunnelId { value, mask }),
            r.spec_wf(),
    {
        TunnelId { value, mask }
    }

    /// Replace the value.
    pub fn set_value(&mut self, value: u64)
        ensures
            final(self).value == value,
            final(self).mask == old(self).mask,
            old(self).spec_wf() ==> final(self).spec_wf(),
    {
        self.value = value;
    }

    /// Set the mask.
    pub fn set_mask(&mut self, mask: u64)
        ensures
            final(self).mask == Some(mask),
            final(self).value == old(self).value,
            old(self).spec_wf() ==> final(self).spec_wf(),
    {
        self.mask = Some(mask);
    }

    /// Remove the mask.
    pub fn unset_mask(&mut self)
        ensures
            final(self).mask is None,
            final(self).value == old(self).value,
            old(self).spec_wf() ==> final(self).spec_wf(),
    {
        self.mask = None;
    }

    /// The payload length: the base length, doubled when masked.
    pub fn value_len(&self) -> (r: usize)
        ensures
            r == self.spec_value_bytes().len(),
            self.mask is Some ==> r == 16,
            self.mask is None ==> r == 8,
    {
        if self.mask.is_some() { 16 } else { 8 }
    }

    /// Whether the payload carries a mask.
    pub fn has_mask(&self) -> (r: bool)
        ensures
            r == self.spec_has_mask(),
            r == (self.mask is Some),
    {
        self.mask.is_some()
    }

    /// The `oxm_field` code of this field.
    pub fn code() -> (r: u8)
        ensures
            r == consts::TUNNEL_ID,
    {
        consts::TUNNEL_ID
    }

    /// Parse the payload of a checked standard TLV as this field.
    pub(crate) fn parse_tlv(packet: &Packet<'_>) -> (r: Result<FlowMatchField, Error>)
        requires
            packet.bytes().len() >= 4,
        ensures
            r == Self::spec_parse_tlv(packet.bytes()),
            r matches Ok(f) ==> f.spec_wf() && 5 <= f.spec_wire().len() <= packet.bytes().len(),
    {
        let value = packet.value();
        if packet.has_mask() {
            if value.len() < 16 {
                return Err(Error::Truncated);
            }
            let v = wire::read_u64_at(value, 0);
            let mk = wire::read_u64_at(value, 8);
            Ok(FlowMatchField::TunnelId(TunnelId::new(v, Some(mk))))
        } else {
            if value.len() < 8 {
                return Err(Error::Truncated);
            }
            let v = wire::read_u64_at(value, 0);
            Ok(FlowMatchField::TunnelId(TunnelId::new(v, None)))
        }
    }

    /// Write the payload bytes at `buf[off]`.
    pub(crate) fn emit_value_at(&self, buf: &mut [u8], off: usize)
        requires
            off + self.spec_value_bytes().len() <= old(buf)@.len(),
        ensures
            final(buf)@ == wire::splice(old(buf)@, off as int, self.spec_value_bytes()),
    {
        wire::write_u64_at(buf, off, self.value);
        match self.mask {
            Some(mk) => {
                let blen = buf.len();
                assert(off + 16 <= blen);
                wire::write_u64_at(buf, off + 8, mk);
                proof {
                    wire::lemma_splice_adjacent(old(buf)@, off as int, wire::spec_u64_be(self.value), wire::spec_u64_be(mk));
                }
            },
            None => {},
        }
    }

    /// Parsing the TLV this field emits, whatever bytes follow it,
    /// yields the field back.
    pub(crate) proof fn lemma_roundtrip(f: Self, rest: Seq<u8>)
        requires
            f.spec_wf(),
        ensures
            FlowMatchField::TunnelId(f).spec_wire().len() >= 5,
            crate::oxm::packet::tlv_class(FlowMatchField::TunnelId(f).spec_wire() + rest) == 0x8000,
            crate::oxm::packet::tlv_field(FlowMatchField::TunnelId(f).spec_wire() + rest) == consts::TUNNEL_ID,
            crate::oxm::packet::tlv_length(FlowMatchField::TunnelId(f).spec_wire() + rest) == f.spec_value_bytes().len(),
            Self::spec_parse_tlv(FlowMatchField::TunnelId(f).spec_wire() + rest) == Ok::<FlowMatchField, Error>(FlowMatchField::TunnelId(f)),
    {
        let vb = f.spec_value_bytes();
        let w = FlowMatchField::TunnelId(f).spec_wire();
        let b = w + rest;
        super::lemma_std_tlv_header(consts::TUNNEL_ID, f.spec_has_mask(), vb);
        assert forall|k: int| 0 <= k < w.len() implies b[k] == super::std_tlv(consts::TUNNEL_ID,
            f.spec_has_mask(), vb)[k] by {}
        wire::lemma_u64_roundtrip(b, 4, f.value);
        match f.mask {
            Some(mk) => wire::lemma_u64_roundtrip(b, 12, mk),
            None => (),
        }
    }
}

/// Output port from the action set.  32-bit port number, not maskable.
#[derive(Debug, PartialEq, Eq, Clone)]
pub struct ActionSetOutput(pub PortNumber);

impl ActionSetOutput {
    /// The port is canonical: it is what its own wire value designates.
    pub open spec fn spec_wf(&self) -> bool {
        PortNumber::spec_from_u32(self.0.spec_to_u32()) == self.0
    }

    pub open spec fn spec_has_mask(&self) -> bool {
        false
    }

    /// The payload bytes: the port's 32-bit wire value.
    pub open spec fn spec_value_bytes(&self) -> Seq<u8> {
        wire::spec_u32_be(self.0.spec_to_u32())
    }

    /// What parsing a standard TLV as this field yields.
    pub open spec fn spec_parse_tlv(b: Seq<u8>) -> Result<FlowMatchField, Error> {
        if b.len() < 4 + 4 {
            Err(Error::Truncated)
        } else {
            Ok(FlowMatchField::ActionSetOutput(ActionSetOutput(PortNumber::spec_from_u32(wire::spec_read_u32(b, 4)))))
        }
    }

    /// Create a new `ActionSetOutput` field.
    pub fn new(value: PortNumber) -> (r: Self)
        ensures
            r == ActionSetOutput(value),
            PortNumber::spec_from_u32(value.spec_to_u32()) == value ==> r.spec_wf(),
    {
        ActionSetOutput(value)
    }

    /// Replace the value.
    pub fn set_value(&mut self, value: PortNumber)
        ensures
            *final(self) == ActionSetOutput(value),
    {
        self.0 = value;
    }

    /// The payload length in bytes.
    pub fn value_len(&self) -> (r: usize)
        ensures
            r == self.spec_value_bytes().len(),
            r == 4,
    {
        4
    }

    /// This field never carries a mask.
    pub fn has_mask(&self) -> (r: bool)
        ensures
            r == self.spec_has_mask(),
            r == false,
    {
        false
    }

    /// The `oxm_field` code of this field.
    pub fn code() -> (r: u8)
        ensures
            r == consts::ACTION_SET_OUTPUT,
    {
        consts::ACTION_SET_OUTPUT
    }

    /// Parse the payload of a checked standard TLV as this field.
    pub(crate) fn parse_tlv(packet: &Packet<'_>) -> (r: Result<FlowMatchField, Error>)
        requires
            packet.bytes().len() >= 4,
        ensures
            r == Self::spec_parse_tlv(packet.bytes()),
            r matches Ok(f) ==> f.spec_wf() && 5 <= f.spec_wire().len() <= packet.bytes().len(),
    {
        let value = packet.value();
        if value.len() < 4 {
            return Err(Error::Truncated);
        }
        let raw = wire::read_u32_at(value, 0);
        let port = PortNumber::from_u32(raw);
        proof {
            PortNumber::lemma_u32_roundtrip(raw);
        }
        Ok(FlowMatchField::ActionSetOutput(ActionSetOutput::new(port)))
    }

    /// Write the payload bytes at `buf[off]`.
    pub(crate) fn emit_value_at(&self, buf: &mut [u8], off: usize)
        requires
            off + self.spec_value_bytes().len() <= old(buf)@.len(),
        ensures
            final(buf)@ == wire::splice(old(buf)@, off as int, self.spec_value_bytes()),
    {
        wire::write_u32_at(buf, off, self.0.to_u32());
    }

    /// Parsing the TLV this field emits, whatever bytes follow it,
    /// yields the field back.
    pub(crate) proof fn lemma_roundtrip(f: Self, rest: Seq<u8>)
        requires
            f.spec_wf(),
        ensures
            FlowMatchField::ActionSetOutput(f).spec_wire().len() >= 5,
            crate::oxm::packet::tlv_class(FlowMatchField::ActionSetOutput(f).spec_wire() + rest) == 0x8000,
            crate::oxm::packet::tlv_field(FlowMatchField::ActionSetOutput(f).spec_wire() + rest) == consts::ACTION_SET_OUTPUT,
            crate::oxm::packet::tlv_length(FlowMatchField::ActionSetOutput(f).spec_wire() + rest) == f.spec_value_bytes().len(),
            Self::spec_parse_tlv(FlowMatchField::ActionSetOutput(f).spec_wire() + rest) == Ok::<FlowMatchField, Error>(FlowMatchField::ActionSetOutput(f)),
    {
        let vb = f.spec_value_bytes();
        let w = FlowMatchField::ActionSetOutput(f).spec_wire();
        let b = w + rest;
        super::lemma_std_tlv_header(consts::ACTION_SET_OUTPUT, f.spec_has_mask(), vb);
        assert forall|k: int| 0 <= k < w.len() implies b[k] == super::std_tlv(consts::ACTION_SET_OUTPUT,
            f.spec_has_mask(), vb)[k] by {}
        wire::lemma_u32_roundtrip(b, 4, f.0.spec_to_u32());
    }
}

/// Packet type: namespace and ns_type, 16 bits each.  Not maskable.
#[derive(Debug, PartialEq, Eq, Clone)]
pub struct PacketType(pub u32);

impl PacketType {
    /// Always true: every stored value is significant in full.
    pub open spec fn spec_wf(&self) -> bool {
        true
    }

    pub open spec fn spec_has_mask(&self) -> bool {
        false
    }

    /// The payload bytes of this field.
    pub open spec fn spec_value_bytes(&self) -> Seq<u8> {
        wire::spec_u32_be(self.0)
    }

    /// What parsing a standard TLV as this field yields.
    pub open spec fn spec_parse_tlv(b: Seq<u8>) -> Result<FlowMatchField, Error> {
        if b.len() < 4 + 4 {
            Err(Error::Truncated)
        } else {
            Ok(FlowMatchField::PacketType(PacketType(wire::spec_read_u32(b, 4))))
        }
    }

    /// Create a new `PacketType` field.
    pub fn new(value: u32) -> (r: Self)
        ensures
            r == PacketType(value),
            r.spec_wf(),
    {
        PacketType(value)
    }

    /// Replace the value.
    pub fn set_value(&mut self, value: u32)
        ensures
            *final(self) == PacketType(value),
            final(self).spec_wf(),
    {
        self.0 = value;
    }

    /// The payload length in bytes.
    pub fn value_len(&self) -> (r: usize)
        ensures
            r == self.spec_value_bytes().len(),
            r == 4,
    {
        4
    }

    /// This field never carries a mask.
    pub fn has_mask(&self) -> (r: bool)
        ensures
            r == self.spec_has_mask(),
            r == false,
    {
        false
    }

    /// The `oxm_field` code of this field.
    pub fn code() -> (r: u8)
        ensures
            r == consts::PACKET_TYPE,
    {
        consts::PACKET_TYPE
    }

    /// Parse the payload of a checked standard TLV as this field.
    pub(crate) fn parse_tlv(packet: &Packet<'_>) -> (r: Result<FlowMatchField, Error>)
        requires
            packet.bytes().len() >= 4,
        ensures
            r == Self::spec_parse_tlv(packet.bytes()),
            r matches Ok(f) ==> f.spec_wf() && 5 <= f.spec_wire().len() <= packet.bytes().len(),
    {
        let value = packet.value();
        if value.len() < 4 {
            return Err(Error::Truncated);
        }
        let v = wire::read_u32_at(value, 0);
        Ok(FlowMatchField::PacketType(PacketType::new(v)))
    }

    /// Write the payload bytes at `buf[off]`.
    pub(crate) fn emit_value_at(&self, buf: &mut [u8], off: usize)
        requires
            off + self.spec_value_bytes().len() <= old(buf)@.len(),
        ensures
            final(buf)@ == wire::splice(old(buf)@, off as int, self.spec_value_bytes()),
    {
        wire::write_u32_at(buf, off, self.0);
    }

    /// Parsing the TLV this field emits, whatever bytes follow it,
    /// yields the field back.
    pub(crate) proof fn lemma_roundtrip(f: Self, rest: Seq<u8>)
        requires
            f.spec_wf(),
        ensures
            FlowMatchField::PacketType(f).spec_wire().len() >= 5,
            crate::oxm::packet::tlv_class(FlowMatchField::PacketType(f).spec_wire() + rest) == 0x8000,
            crate::oxm::packet::tlv_field(FlowMatchField::PacketType(f).spec_wire() + rest) == consts::PACKET_TYPE,
            crate::oxm::packet::tlv_length(FlowMatchField::PacketType(f).spec_wire() + rest) == f.spec_value_bytes().len(),
            Self::spec_parse_tlv(FlowMatchField::PacketType(f).spec_wire() + rest) == Ok::<FlowMatchField, Error>(FlowMatchField::PacketType(f)),
    {
        let vb = f.spec_value_bytes();
        let w = FlowMatchField::PacketType(f).spec_wire();
        let b = w + rest;
        super::lemma_std_tlv_header(consts::PACKET_TYPE, f.spec_has_mask(), vb);
        assert forall|k: int| 0 <= k < w.len() implies b[k] == super::std_tlv(consts::PACKET_TYPE,
            f.spec_has_mask(), vb)[k] by {}
        wire::lemma_u32_roundtrip(b, 4, f.0);
    }
}

} // verus!
