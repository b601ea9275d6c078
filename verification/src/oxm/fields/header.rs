//! The standard flow match fields that describe packet header contents.
//!
//! Each field codec states its payload layout as ghost byte sequences and is
//! proved to read back exactly what it writes.

use vstd::prelude::*;

use crate::oxm::fields::consts;
use crate::oxm::fields::FlowMatchField;
use crate::oxm::packet::Packet;
use crate::wire;
use crate::Error;

verus! {


/// Destination address in the Ethernet header.  48-bit MAC address, arbitrary masks.
#[derive(Debug, PartialEq, Eq, Clone)]
pub struct EthernetDestination {
    pub value: [u8; 6],
    pub mask: Option<[u8; 6]>,
}

impl EthernetDestination {
    /// Always true: every stored value is significant in full.
    pub open spec fn spec_wf(&self) -> bool {
        true
    }

    pub open spec fn spec_has_mask(&self) -> bool {
        self.mask is Some
    }

    /// The payload bytes: the value, then the mask when present.
    pub open spec fn spec_value_bytes(&self) -> Seq<u8> {
        match self.mask {
            Some(mk) => self.value@ + mk@,
            None => self.value@,
        }
    }

    /// What parsing a standard TLV as this field yields.
    pub open spec fn spec_parse_tlv(b: Seq<u8>) -> Result<FlowMatchField, Error> {
        if crate::oxm::packet::tlv_has_mask(b) {
            if b.len() < 4 + 12 {
                Err(Error::Truncated)
            } else {
                Ok(FlowMatchField::EthernetDestination(EthernetDestination {
                    value: wire::seq_to_arr::<6>(b.subrange(4, 10)),
                    mask: Some(wire::seq_to_arr::<6>(b.subrange(10, 16))),
                }))
            }
        } else {
            if b.len() < 4 + 6 {
                Err(Error::Truncated)
            } else {
                Ok(FlowMatchField::EthernetDestination(EthernetDestination {
                    value: wire::seq_to_arr::<6>(b.subrange(4, 10)),
                    mask: None,
                }))
            }
        }
    }

    /// Create a new `EthernetDestination` field from a value and an optional mask.
    pub fn new(value: [u8; 6], mask: Option<[u8; 6]>) -> (r: Self)
        ensures
            r == (EthernetDestination { value, mask }),
            r.spec_wf(),
    {
        EthernetDestination { value, mask }
    }

    /// Replace the value.
    pub fn set_value(&mut self, value: [u8; 6])
        ensures
            final(self).value == value,
            final(self).mask == old(self).mask,
            final(self).spec_wf(),
    {
        self.value = value;
    }

    /// Set the mask.
    pub fn set_mask(&mut self, mask: [u8; 6])
        ensures
            final(self).mask == Some(mask),
            final(self).value == old(self).value,
            final(self).spec_wf(),
    {
        self.mask = Some(mask);
    }

    /// Remove the mask.
    pub fn unset_mask(&mut self)
        ensures
            final(self).mask is None,
            final(self).value == old(self).value,
            final(self).spec_wf(),
    {
        self.mask = None;
    }

    /// The payload length: the base length, doubled when masked.
    pub fn value_len(&self) -> (r: usize)
        ensures
            r == self.spec_value_bytes().len(),
            self.mask is Some ==> r == 12,
            self.mask is None ==> r == 6,
    {
        if self.mask.is_some() { 12 } else { 6 }
    }

    /// Whether the payload carries a mask.
    pub fn has_mask(&self) -> (r: bool)
        ensures
            r == self.spec_has_mask(),
            r == (self.mask is Some),
    {
        self.mask.is_some()
    }

    /// The `oxm_field` code of this field.
    pub fn code() -> (r: u8)
        ensures
            r == consts::ETHERNET_DESTINATION,
    {
        consts::ETHERNET_DESTINATION
    }

    /// Parse the payload of a checked standard TLV as this field.
    pub(crate) fn parse_tlv(packet: &Packet<'_>) -> (r: Result<FlowMatchField, Error>)
        requires
            packet.bytes().len() >= 4,
        ensures
            r == Self::spec_parse_tlv(packet.bytes()),
            r matches Ok(f) ==> f.spec_wf() && 5 <= f.spec_wire().len() <= packet.bytes().len(),
    {
        let value = packet.value();
        if packet.has_mask() {
            if value.len() < 12 {
                return Err(Error::Truncated);
            }
            let v = wire::read_bytes_at::<6>(value, 0);
            let mk = wire::read_bytes_at::<6>(value, 6);
            proof {
                assert(value@.subrange(0, 6) =~= packet.bytes().subrange(4, 10));
                assert(value@.subrange(6, 12) =~= packet.bytes().subrange(10, 16));
                wire::lemma_seq_to_arr(v);
                wire::lemma_seq_to_arr(mk);
            }
            Ok(FlowMatchField::EthernetDestination(EthernetDestination::new(v, Some(mk))))
        } else {
            if value.len() < 6 {
                return Err(Error::Truncated);
            }
            let v = wire::read_bytes_at::<6>(value, 0);
            proof {
                assert(value@.subrange(0, 6) =~= packet.bytes().subrange(4, 10));
                wire::lemma_seq_to_arr(v);
            }
            Ok(FlowMatchField::EthernetDestination(EthernetDestination::new(v, None)))
        }
    }

    /// Write the payload bytes at `buf[off]`.
    pub(crate) fn emit_value_at(&self, buf: &mut [u8], off: usize)
        requires
            off + self.spec_value_bytes().len() <= old(buf)@.len(),
        ensures
            final(buf)@ == wire::splice(old(buf)@, off as int, self.spec_value_bytes()),
    {
        wire::write_bytes_at(buf, off, self.value.as_slice());
        match self.mask {
            Some(mk) => {
                let blen = buf.len();
                assert(off + 12 <= blen);
                wire::write_bytes_at(buf, off + 6, mk.as_slice());
                proof {
                    wire::lemma_splice_adjacent(old(buf)@, off as int, self.value@, mk@);
                }
            },
            None => {},
        }
    }

    /// Parsing the TLV this field emits, whatever bytes follow it,
    /// yields the field back.
    pub(crate) proof fn lemma_roundtrip(f: Self, rest: Seq<u8>)
        requires
            f.spec_wf(),
        ensures
            FlowMatchField::EthernetDestination(f).spec_wire().len() >= 5,
            crate::oxm::packet::tlv_class(FlowMatchField::EthernetDestination(f).spec_wire() + rest) == 0x8000,
            crate::oxm::packet::tlv_field(FlowMatchField::EthernetDestination(f).spec_wire() + rest) == consts::ETHERNET_DESTINATION,
            crate::oxm::packet::tlv_length(FlowMatchField::EthernetDestination(f).spec_wire() + rest) == f.spec_value_bytes().len(),
            Self::spec_parse_tlv(FlowMatchField::EthernetDestination(f).spec_wire() + rest) == Ok::<FlowMatchField, Error>(FlowMatchField::EthernetDestination(f)),
    {
        let vb = f.spec_value_bytes();
        let w = FlowMatchField::EthernetDestination(f).spec_wire();
        let b = w + rest;
        super::lemma_std_tlv_header(consts::ETHERNET_DESTINATION, f.spec_has_mask(), vb);
        assert forall|k: int| 0 <= k < w.len() implies b[k] == super::std_tlv(consts::ETHERNET_DESTINATION,
            f.spec_has_mask(), vb)[k] by {}
        match f.mask {
            Some(mk) => {
                assert(b.subrange(4, 10) =~= f.value@);
                assert(b.subrange(10, 16) =~= mk@);
                wire::lemma_seq_to_arr(f.value);
                wire::lemma_seq_to_arr(mk);
            },
            None => {
                assert(b.subrange(4, 10) =~= f.value@);
                wire::lemma_seq_to_arr(f.value);
            },
        }
    }
}

/// Source address in the Ethernet header.  48-bit MAC address, arbitrary masks.
#[derive(Debug, PartialEq, Eq, Clone)]
pub struct EthernetSource {
    pub value: [u8; 6],
    pub mask: Option<[u8; 6]>,
}

impl EthernetSource {
    /// Always true: every stored value is significant in full.
    pub open spec fn spec_wf(&self) -> bool {
        true
    }

    pub open spec fn spec_has_mask(&self) -> bool {
        self.mask is Some
    }

    /// The payload bytes: the value, then the mask when present.
    pub open spec fn spec_value_bytes(&self) -> Seq<u8> {
        match self.mask {
            Some(mk) => self.value@ + mk@,
            None => self.value@,
        }
    }

    /// What parsing a standard TLV as this field yields.
    pub open spec fn spec_parse_tlv(b: Seq<u8>) -> Result<FlowMatchField, Error> {
        if crate::oxm::packet::tlv_has_mask(b) {
            if b.len() < 4 + 12 {
                Err(Error::Truncated)
            } else {
                Ok(FlowMatchField::EthernetSource(EthernetSource {
                    value: wire::seq_to_arr::<6>(b.subrange(4, 10)),
                    mask: Some(wire::seq_to_arr::<6>(b.subrange(10, 16))),
                }))
            }
        } else {
            if b.len() < 4 + 6 {
                Err(Error::Truncated)
            } else {
                Ok(FlowMatchField::EthernetSource(EthernetSource {
                    value: wire::seq_to_arr::<6>(b.subrange(4, 10)),
                    mask: None,
                }))
            }
        }
    }

    /// Create a new `EthernetSource` field from a value and an optional mask.
    pub fn new(value: [u8; 6], mask: Option<[u8; 6]>) -> (r: Self)
        ensures
            r == (EthernetSource { value, mask }),
            r.spec_wf(),
    {
        EthernetSource { value, mask }
    }

    /// Replace the value.
    pub fn set_value(&mut self, value: [u8; 6])
        ensures
            final(self).value == value,
            final(self).mask == old(self).mask,
            final(self).spec_wf(),
    {
        self.value = value;
    }

    /// Set the mask.
    pub fn set_mask(&mut self, mask: [u8; 6])
        ensures
            final(self).mask == Some(mask),
            final(self).value == old(self).value,
            final(self).spec_wf(),
    {
        self.mask = Some(mask);
    }

    /// Remove the mask.
    pub fn unset_mask(&mut self)
        ensures
            final(self).mask is None,
            final(self).value == old(self).value,
            final(self).spec_wf(),
    {
        self.mask = None;
    }

    /// The payload length: the base length, doubled when masked.
    pub fn value_len(&self) -> (r: usize)
        ensures
            r == self.spec_value_bytes().len(),
            self.mask is Some ==> r == 12,
            self.mask is None ==> r == 6,
    {
        if self.mask.is_some() { 12 } else { 6 }
    }

    /// Whether the payload carries a mask.
    pub fn has_mask(&self) -> (r: bool)
        ensures
            r == self.spec_has_mask(),
            r == (self.mask is Some),
    {
        self.mask.is_some()
    }

    /// The `oxm_field` code of this field.
    pub fn code() -> (r: u8)
        ensures
            r == consts::ETHERNET_SOURCE,
    {
        consts::ETHERNET_SOURCE
    }

    /// Parse the payload of a checked standard TLV as this field.
    pub(crate) fn parse_tlv(packet: &Packet<'_>) -> (r: Result<FlowMatchField, Error>)
        requires
            packet.bytes().len() >= 4,
        ensures
            r == Self::spec_parse_tlv(packet.bytes()),
            r matches Ok(f) ==> f.spec_wf() && 5 <= f.spec_wire().len() <= packet.bytes().len(),
    {
        let value = packet.value();
        if packet.has_mask() {
            if value.len() < 12 {
                return Err(Error::Truncated);
            }
            let v = wire::read_bytes_at::<6>(value, 0);
            let mk = wire::read_bytes_at::<6>(value, 6);
            proof {
                assert(value@.subrange(0, 6) =~= packet.bytes().subrange(4, 10));
                assert(value@.subrange(6, 12) =~= packet.bytes().subrange(10, 16));
                wire::lemma_seq_to_arr(v);
                wire::lemma_seq_to_arr(mk);
            }
            Ok(FlowMatchField::EthernetSource(EthernetSource::new(v, Some(mk))))
        } else {
            if value.len() < 6 {
                return Err(Error::Truncated);
            }
            let v = wire::read_bytes_at::<6>(value, 0);
            proof {
                assert(value@.subrange(0, 6) =~= packet.bytes().subrange(4, 10));
                wire::lemma_seq_to_arr(v);
            }
            Ok(FlowMatchField::EthernetSource(EthernetSource::new(v, None)))
        }
    }

    /// Write the payload bytes at `buf[off]`.
    pub(crate) fn emit_value_at(&self, buf: &mut [u8], off: usize)
        requires
            off + self.spec_value_bytes().len() <= old(buf)@.len(),
        ensures
            final(buf)@ == wire::splice(old(buf)@, off as int, self.spec_value_bytes()),
    {
        wire::write_bytes_at(buf, off, self.value.as_slice());
        match self.mask {
            Some(mk) => {
                let blen = buf.len();
                assert(off + 12 <= blen);
                wire::write_bytes_at(buf, off + 6, mk.as_slice());
                proof {
                    wire::lemma_splice_adjacent(old(buf)@, off as int, self.value@, mk@);
                }
            },
            None => {},
        }
    }

    /// Parsing the TLV this field emits, whatever bytes follow it,
    /// yields the field back.
    pub(crate) proof fn lemma_roundtrip(f: Self, rest: Seq<u8>)
        requires
            f.spec_wf(),
        ensures
            FlowMatchField::EthernetSource(f).spec_wire().len() >= 5,
            crate::oxm::packet::tlv_class(FlowMatchField::EthernetSource(f).spec_wire() + rest) == 0x8000,
            crate::oxm::packet::tlv_field(FlowMatchField::EthernetSource(f).spec_wire() + rest) == consts::ETHERNET_SOURCE,
            crate::oxm::packet::tlv_length(FlowMatchField::EthernetSource(f).spec_wire() + rest) == f.spec_value_bytes().len(),
            Self::spec_parse_tlv(FlowMatchField::EthernetSource(f).spec_wire() + rest) == Ok::<FlowMatchField, Error>(FlowMatchField::EthernetSource(f)),
    {
        let vb = f.spec_value_bytes();
        let w = FlowMatchField::EthernetSource(f).spec_wire();
        let b = w + rest;
        super::lemma_std_tlv_header(consts::ETHERNET_SOURCE, f.spec_has_mask(), vb);
        assert forall|k: int| 0 <= k < w.len() implies b[k] == super::std_tlv(consts::ETHERNET_SOURCE,
            f.spec_has_mask(), vb)[k] by {}
        match f.mask {
            Some(mk) => {
                assert(b.subrange(4, 10) =~= f.value@);
                assert(b.subrange(10, 16) =~= mk@);
                wire::lemma_seq_to_arr(f.value);
                wire::lemma_seq_to_arr(mk);
            },
            None => {
                assert(b.subrange(4, 10) =~= f.value@);
                wire::lemma_seq_to_arr(f.value);
            },
        }
    }
}

/// Ethernet frame type.  16-bit integer, not maskable.
#[derive(Debug, PartialEq, Eq, Clone)]
pub struct EthernetType(pub u16);

impl EthernetType {
    /// Always true: every stored value is significant in full.
    pub open spec fn spec_wf(&self) -> bool {
        true
    }

    pub open spec fn spec_has_mask(&self) -> bool {
        false
    }

    /// The payload bytes of this field.
    pub open spec fn spec_value_bytes(&self) -> Seq<u8> {
        wire::spec_u16_be(self.0)
    }

    /// What parsing a standard TLV as this field yields.
    pub open spec fn spec_parse_tlv(b: Seq<u8>) -> Result<FlowMatchField, Error> {
        if b.len() < 4 + 2 {
            Err(Error::Truncated)
        } else {
            Ok(FlowMatchField::EthernetType(EthernetType(wire::spec_read_u16(b, 4))))
        }
    }

    /// Create a new `EthernetType` field.
    pub fn new(value: u16) -> (r: Self)
        ensures
            r == EthernetType(value),
            r.spec_wf(),
    {
        EthernetType(value)
    }

    /// Replace the value.
    pub fn set_value(&mut self, value: u16)
        ensures
            *final(self) == EthernetType(value),
            final(self).spec_wf(),
    {
        self.0 = value;
    }

    /// The payload length in bytes.
    pub fn value_len(&self) -> (r: usize)
        ensures
            r == self.spec_value_bytes().len(),
            r == 2,
    {
        2
    }

    /// This field never carries a mask.
    pub fn has_mask(&self) -> (r: bool)
        ensures
            r == self.spec_has_mask(),
            r == false,
    {
        false
    }

    /// The `oxm_field` code of this field.
    pub fn code() -> (r: u8)
        ensures
            r == consts::ETHERNET_TYPE,
    {
        consts::ETHERNET_TYPE
    }

    /// Parse the payload of a checked standard TLV as this field.
    pub(crate) fn parse_tlv(packet: &Packet<'_>) -> (r: Result<FlowMatchField, Error>)
        requires
            packet.bytes().len() >= 4,
        ensures
            r == Self::spec_parse_tlv(packet.bytes()),
            r matches Ok(f) ==> f.spec_wf() && 5 <= f.spec_wire().len() <= packet.bytes().len(),
    {
        let value = packet.value();
        if value.len() < 2 {
            return Err(Error::Truncated);
        }
        let v = wire::read_u16_at(value, 0);
        Ok(FlowMatchField::EthernetType(EthernetType::new(v)))
    }

    /// Write the payload bytes at `buf[off]`.
    pub(crate) fn emit_value_at(&self, buf: &mut [u8], off: usize)
        requires
            off + self.spec_value_bytes().len() <= old(buf)@.len(),
        ensures
            final(buf)@ == wire::splice(old(buf)@, off as int, self.spec_value_bytes()),
    {
        wire::write_u16_at(buf, off, self.0);
    }

    /// Parsing the TLV this field emits, whatever bytes follow it,
    /// yields the field back.
    pub(crate) proof fn lemma_roundtrip(f: Self, rest: Seq<u8>)
        requires
            f.spec_wf(),
        ensures
            FlowMatchField::EthernetType(f).spec_wire().len() >= 5,
            crate::oxm::packet::tlv_class(FlowMatchField::EthernetType(f).spec_wire() + rest) == 0x8000,
            crate::oxm::packet::tlv_field(FlowMatchField::EthernetType(f).spec_wire() + rest) == consts::ETHERNET_TYPE,
            crate::oxm::packet::tlv_length(FlowMatchField::EthernetType(f).spec_wire() + rest) == f.spec_value_bytes().len(),
            Self::spec_parse_tlv(FlowMatchField::EthernetType(f).spec_wire() + rest) == Ok::<FlowMatchField, Error>(FlowMatchField::EthernetType(f)),
    {
        let vb = f.spec_value_bytes();
        let w = FlowMatchField::EthernetType(f).spec_wire();
        let b = w + rest;
        super::lemma_std_tlv_header(consts::ETHERNET_TYPE, f.spec_has_mask(), vb);
        assert forall|k: int| 0 <= k < w.len() implies b[k] == super::std_tlv(consts::ETHERNET_TYPE,
            f.spec_has_mask(), vb)[k] by {}
        wire::lemma_u16_roundtrip(b, 4, f.0);
    }
}

/// 802.1Q VLAN id from the outermost tag.  16-bit integer of which only the lower 13 bits have meaning; arbitrary masks.
#[derive(Debug, PartialEq, Eq, Clone)]
pub struct VlanId {
    pub value: u16,
    pub mask: Option<u16>,
}

impl VlanId {
    /// Stored value and mask never exceed the significant bit width.
    pub open spec fn spec_wf(&self) -> bool {
        self.value & 0x1fff == self.value && (self.mask matches Some(mk) ==> mk & 0x1fff == mk)
    }

    pub open spec fn spec_has_mask(&self) -> bool {
        self.mask is Some
    }

    /// The payload bytes: the value, then the mask when present.
    pub open spec fn spec_value_bytes(&self) -> Seq<u8> {
        match self.mask {
            Some(mk) => wire::spec_u16_be(self.value) + wire::spec_u16_be(mk),
            None => wire::spec_u16_be(self.value),
        }
    }

    /// What parsing a standard TLV as this field yields.
    pub open spec fn spec_parse_tlv(b: Seq<u8>) -> Result<FlowMatchField, Error> {
        if crate::oxm::packet::tlv_has_mask(b) {
            if b.len() < 4 + 4 {
                Err(Error::Truncated)
            } else {
                Ok(FlowMatchField::VlanId(VlanId {
                    value: wire::spec_read_u16(b, 4) & 0x1fff,
                    mask: Some(wire::spec_read_u16(b, 6) & 0x1fff),
                }))
            }
        } else {
            if b.len() < 4 + 2 {
                Err(Error::Truncated)
            } else {
                Ok(FlowMatchField::VlanId(VlanId { value: wire::spec_read_u16(b, 4) & 0x1fff, mask: None }))
            }
        }
    }

    /// Create a new `VlanId` field from a value and an optional mask, both truncated to the significant bits.
    pub fn new(value: u16, mask: Option<u16>) -> (r: Self)
        ensures
            r.value == value & 0x1fff,
            mask matches Some(mk) ==> r.mask == Some(mk & 0x1fff),
            mask is None ==> r.mask is None,
            r.spec_wf(),
    {
        proof {
            wire::lemma_u16_and_idem(value, 0x1fff);
            match mask {
                Some(mk) => wire::lemma_u16_and_idem(mk, 0x1fff),
                None => (),
            }
        }
        VlanId {
            value: value & 0x1fff,
            mask: match mask {
                Some(mk) => Some(mk & 0x1fff),
                None => None,
            },
        }
    }

    /// Replace the value, it is truncated to the significant bits.
    pub fn set_value(&mut self, value: u16)
        ensures
            final(self).value == value & 0x1fff,
            final(self).mask == old(self).mask,
            old(self).spec_wf() ==> final(self).spec_wf(),
    {
        proof { wire::lemma_u16_and_idem(value, 0x1fff); }
        self.value = value & 0x1fff;
    }

    /// Set the CFI (also called DEI) bit, indicating that a VLAN id is
    /// present.
    pub fn set_dei(&mut self)
        ensures
            final(self).value == old(self).value | 0x1000,
            final(self).mask == old(self).mask,
            old(self).spec_wf() ==> final(self).spec_wf(),
    {
        proof {
            let v = self.value;
            assert(v & 0x1fff == v ==> ((v | 0x1000) & 0x1fff) == (v | 0x1000)) by (bit_vector);
        }
        self.value = self.value | 0x1000;
    }

    /// Clear the CFI (also called DEI) bit, indicating that no VLAN id is
    /// present.
    pub fn unset_dei(&mut self)
        ensures
            final(self).value == old(self).value & 0x0fff,
            final(self).mask == old(self).mask,
            old(self).spec_wf() ==> final(self).spec_wf(),
    {
        proof {
            let v = self.value;
            assert(((v & 0x0fff) & 0x1fff) == (v & 0x0fff)) by (bit_vector);
        }
        self.value = self.value & 0x0fff;
    }

    /// Set the mask, truncated to the significant bits.
    pub fn set_mask(&mut self, mask: u16)
        ensures
            final(self).mask == Some(mask & 0x1fff),
            final(self).value == old(self).value,
            old(self).spec_wf() ==> final(self).spec_wf(),
    {
        proof { wire::lemma_u16_and_idem(mask, 0x1fff); }
        self.mask = Some(mask & 0x1fff);
    }

    /// Remove the mask.
    pub fn unset_mask(&mut self)
        ensures
            final(self).mask is None,
            final(self).value == old(self).value,
            old(self).spec_wf() ==> final(self).spec_wf(),
    {
        self.mask = None;
    }

    /// The payload length: the base length, doubled when masked.
    pub fn value_len(&self) -> (r: usize)
        ensures
            r == self.spec_value_bytes().len(),
            self.mask is Some ==> r == 4,
            self.mask is None ==> r == 2,
    {
        if self.mask.is_some() { 4 } else { 2 }
    }

    /// Whether the payload carries a mask.
    pub fn has_mask(&self) -> (r: bool)
        ensures
            r == self.spec_has_mask(),
            r == (self.mask is Some),
    {
        self.mask.is_some()
    }

    /// The `oxm_field` code of this field.
    pub fn code() -> (r: u8)
        ensures
            r == consts::VLAN_ID,
    {
        consts::VLAN_ID
    }

    /// Parse the payload of a checked standard TLV as this field.
    pub(crate) fn parse_tlv(packet: &Packet<'_>) -> (r: Result<FlowMatchField, Error>)
        requires
            packet.bytes().len() >= 4,
        ensures
            r == Self::spec_parse_tlv(packet.bytes()),
            r matches Ok(f) ==> f.spec_wf() && 5 <= f.spec_wire().len() <= packet.bytes().len(),
    {
        let value = packet.value();
        if packet.has_mask() {
            if value.len() < 4 {
                return Err(Error::Truncated);
            }
            let v = wire::read_u16_at(value, 0);
            let mk = wire::read_u16_at(value, 2);
            Ok(FlowMatchField::VlanId(VlanId::new(v, Some(mk))))
        } else {
            if value.len() < 2 {
                return Err(Error::Truncated);
            }
            let v = wire::read_u16_at(value, 0);
            Ok(FlowMatchField::VlanId(VlanId::new(v, None)))
        }
    }

    /// Write the payload bytes at `buf[off]`.
    pub(crate) fn emit_value_at(&self, buf: &mut [u8], off: usize)
        requires
            off + self.spec_value_bytes().len() <= old(buf)@.len(),
        ensures
            final(buf)@ == wire::splice(old(buf)@, off as int, self.spec_value_bytes()),
    {
        wire::write_u16_at(buf, off, self.value);
        match self.mask {
            Some(mk) => {
                let blen = buf.len();
                assert(off + 4 <= blen);
                wire::write_u16_at(buf, off + 2, mk);
                proof {
                    wire::lemma_splice_adjacent(old(buf)@, off as int, wire::spec_u16_be(self.value), wire::spec_u16_be(mk));
                }
            },
            None => {},
        }
    }

    /// Parsing the TLV this field emits, whatever bytes follow it,
    /// yields the field back.
    pub(crate) proof fn lemma_roundtrip(f: Self, rest: Seq<u8>)
        requires
            f.spec_wf(),
        ensures
            FlowMatchField::VlanId(f).spec_wire().len() >= 5,
            crate::oxm::packet::tlv_class(FlowMatchField::VlanId(f).spec_wire() + rest) == 0x8000,
            crate::oxm::packet::tlv_field(FlowMatchField::VlanId(f).spec_wire() + rest) == consts::VLAN_ID,
            crate::oxm::packet::tlv_length(FlowMatchField::VlanId(f).spec_wire() + rest) == f.spec_value_bytes().len(),
            Self::spec_parse_tlv(FlowMatchField::VlanId(f).spec_wire() + rest) == Ok::<FlowMatchField, Error>(FlowMatchField::VlanId(f)),
    {
        let vb = f.spec_value_bytes();
        let w = FlowMatchField::VlanId(f).spec_wire();
        let b = w + rest;
        super::lemma_std_tlv_header(consts::VLAN_ID, f.spec_has_mask(), vb);
        assert forall|k: int| 0 <= k < w.len() implies b[k] == super::std_tlv(consts::VLAN_ID,
            f.spec_has_mask(), vb)[k] by {}
        wire::lemma_u16_roundtrip(b, 4, f.value);
        match f.mask {
            Some(mk) => wire::lemma_u16_roundtrip(b, 6, mk),
            None => (),
        }
    }
}

/// 802.1Q PCP from the outermost tag.  8-bit integer of which only the lower 3 bits have meaning; not maskable.
#[derive(Debug, PartialEq, Eq, Clone)]
pub struct VlanPriority(pub u8);

impl VlanPriority {
    /// The stored value never exceeds the significant bit width.
    pub open spec fn spec_wf(&self) -> bool {
        self.0 & 0x07 == self.0
    }

    pub open spec fn spec_has_mask(&self) -> bool {
        false
    }

    /// The payload bytes of this field.
    pub open spec fn spec_value_bytes(&self) -> Seq<u8> {
        seq![self.0]
    }

    /// What parsing a standard TLV as this field yields.
    pub open spec fn spec_parse_tlv(b: Seq<u8>) -> Result<FlowMatchField, Error> {
        if b.len() < 4 + 1 {
            Err(Error::Truncated)
        } else {
            Ok(FlowMatchField::VlanPriority(VlanPriority(b[4] & 0x07)))
        }
    }

    /// Create a new `VlanPriority` field, truncated to the significant bits.
    pub fn new(value: u8) -> (r: Self)
        ensures
            r == VlanPriority(value & 0x07),
            r.spec_wf(),
    {
        proof { wire::lemma_u8_and_idem(value, 0x07); }
        VlanPriority(value & 0x07)
    }

    /// Replace the value, truncated to the significant bits.
    pub fn set_value(&mut self, value: u8)
        ensures
            *final(self) == VlanPriority(value & 0x07),
            final(self).spec_wf(),
    {
        proof { wire::lemma_u8_and_idem(value, 0x07); }
        self.0 = value & 0x07;
    }

    /// The payload length in bytes.
    pub fn value_len(&self) -> (r: usize)
        ensures
            r == self.spec_value_bytes().len(),
            r == 1,
    {
        1
    }

    /// This field never carries a mask.
    pub fn has_mask(&self) -> (r: bool)
        ensures
            r == self.spec_has_mask(),
            r == false,
    {
        false
    }

    /// The `oxm_field` code of this field.
    pub fn code() -> (r: u8)
        ensures
            r == consts::VLAN_PRIORITY,
    {
        consts::VLAN_PRIORITY
    }

    /// Parse the payload of a checked standard TLV as this field.
    pub(crate) fn parse_tlv(packet: &Packet<'_>) -> (r: Result<FlowMatchField, Error>)
        requires
            packet.bytes().len() >= 4,
        ensures
            r == Self::spec_parse_tlv(packet.bytes()),
            r matches Ok(f) ==> f.spec_wf() && 5 <= f.spec_wire().len() <= packet.bytes().len(),
    {
        let value = packet.value();
        if value.len() < 1 {
            return Err(Error::Truncated);
        }
        let v = wire::read_u8_at(value, 0);
        Ok(FlowMatchField::VlanPriority(VlanPriority::new(v)))
    }

    /// Write the payload bytes at `buf[off]`.
    pub(crate) fn emit_value_at(&self, buf: &mut [u8], off: usize)
        requires
            off + self.spec_value_bytes().len() <= old(buf)@.len(),
        ensures
            final(buf)@ == wire::splice(old(buf)@, off as int, self.spec_value_bytes()),
    {
        wire::write_u8_at(buf, off, self.0);
    }

    /// Parsing the TLV this field emits, whatever bytes follow it,
    /// yields the field back.
    pub(crate) proof fn lemma_roundtrip(f: Self, rest: Seq<u8>)
        requires
            f.spec_wf(),
        ensures
            FlowMatchField::VlanPriority(f).spec_wire().len() >= 5,
            crate::oxm::packet::tlv_class(FlowMatchField::VlanPriority(f).spec_wire() + rest) == 0x8000,
            crate::oxm::packet::tlv_field(FlowMatchField::VlanPriority(f).spec_wire() + rest) == consts::VLAN_PRIORITY,
            crate::oxm::packet::tlv_length(FlowMatchField::VlanPriority(f).spec_wire() + rest) == f.spec_value_bytes().len(),
            Self::spec_parse_tlv(FlowMatchField::VlanPriority(f).spec_wire() + rest) == Ok::<FlowMatchField, Error>(FlowMatchField::VlanPriority(f)),
    {
        let vb = f.spec_value_bytes();
        let w = FlowMatchField::VlanPriority(f).spec_wire();
        let b = w + rest;
        super::lemma_std_tlv_header(consts::VLAN_PRIORITY, f.spec_has_mask(), vb);
        assert forall|k: int| 0 <= k < w.len() implies b[k] == super::std_tlv(consts::VLAN_PRIORITY,
            f.spec_has_mask(), vb)[k] by {}

    }
}

/// DSCP bits of the IP header.  8-bit integer of which only the lower 6 bits have meaning; not maskable.
#[derive(Debug, PartialEq, Eq, Clone)]
pub struct IpDscp(pub u8);

impl IpDscp {
    /// The stored value never exceeds the significant bit width.
    pub open spec fn spec_wf(&self) -> bool {
        self.0 & 0x3f == self.0
    }

    pub open spec fn spec_has_mask(&self) -> bool {
        false
    }

    /// The payload bytes of this field.
    pub open spec fn spec_value_bytes(&self) -> Seq<u8> {
        seq![self.0]
    }

    /// What parsing a standard TLV as this field yields.
    pub open spec fn spec_parse_tlv(b: Seq<u8>) -> Result<FlowMatchField, Error> {
        if b.len() < 4 + 1 {
            Err(Error::Truncated)
        } else {
            Ok(FlowMatchField::IpDscp(IpDscp(b[4] & 0x3f)))
        }
    }

    /// Create a new `IpDscp` field, truncated to the significant bits.
    pub fn new(value: u8) -> (r: Self)
        ensures
            r == IpDscp(value & 0x3f),
            r.spec_wf(),
    {
        proof { wire::lemma_u8_and_idem(value, 0x3f); }
        IpDscp(value & 0x3f)
    }

    /// Replace the value, truncated to the significant bits.
    pub fn set_value(&mut self, value: u8)
        ensures
            *final(self) == IpDscp(value & 0x3f),
            final(self).spec_wf(),
    {
        proof { wire::lemma_u8_and_idem(value, 0x3f); }
        self.0 = value & 0x3f;
    }

    /// The payload length in bytes.
    pub fn value_len(&self) -> (r: usize)
        ensures
            r == self.spec_value_bytes().len(),
            r == 1,
    {
        1
    }

    /// This field never carries a mask.
    pub fn has_mask(&self) -> (r: bool)
        ensures
            r == self.spec_has_mask(),
            r == false,
    {
        false
    }

    /// The `oxm_field` code of this field.
    pub fn code() -> (r: u8)
        ensures
            r == consts::IP_DSCP,
    {
        consts::IP_DSCP
    }

    /// Parse the payload of a checked standard TLV as this field.
    pub(crate) fn parse_tlv(packet: &Packet<'_>) -> (r: Result<FlowMatchField, Error>)
        requires
            packet.bytes().len() >= 4,
        ensures
            r == Self::spec_parse_tlv(packet.bytes()),
            r matches Ok(f) ==> f.spec_wf() && 5 <= f.spec_wire().len() <= packet.bytes().len(),
    {
        let value = packet.value();
        if value.len() < 1 {
            return Err(Error::Truncated);
        }
        let v = wire::read_u8_at(value, 0);
        Ok(FlowMatchField::IpDscp(IpDscp::new(v)))
    }

    /// Write the payload bytes at `buf[off]`.
    pub(crate) fn emit_value_at(&self, buf: &mut [u8], off: usize)
        requires
            off + self.spec_value_bytes().len() <= old(buf)@.len(),
        ensures
            final(buf)@ == wire::splice(old(buf)@, off as int, self.spec_value_bytes()),
    {
        wire::write_u8_at(buf, off, self.0);
    }

    /// Parsing the TLV this field emits, whatever bytes follow it,
    /// yields the field back.
    pub(crate) proof fn lemma_roundtrip(f: Self, rest: Seq<u8>)
        requires
            f.spec_wf(),
        ensures
            FlowMatchField::IpDscp(f).spec_wire().len() >= 5,
            crate::oxm::packet::tlv_class(FlowMatchField::IpDscp(f).spec_wire() + rest) == 0x8000,
            crate::oxm::packet::tlv_field(FlowMatchField::IpDscp(f).spec_wire() + rest) == consts::IP_DSCP,
            crate::oxm::packet::tlv_length(FlowMatchField::IpDscp(f).spec_wire() + rest) == f.spec_value_bytes().len(),
            Self::spec_parse_tlv(FlowMatchField::IpDscp(f).spec_wire() + rest) == Ok::<FlowMatchField, Error>(FlowMatchField::IpDscp(f)),
    {
        let vb = f.spec_value_bytes();
        let w = FlowMatchField::IpDscp(f).spec_wire();
        let b = w + rest;
        super::lemma_std_tlv_header(consts::IP_DSCP, f.spec_has_mask(), vb);
        assert forall|k: int| 0 <= k < w.len() implies b[k] == super::std_tlv(consts::IP_DSCP,
            f.spec_has_mask(), vb)[k] by {}

    }
}

/// ECN bits of the IP header.  8-bit integer of which only the lower 2 bits have meaning; not maskable.
#[derive(Debug, PartialEq, Eq, Clone)]
pub struct IpEcn(pub u8);

impl IpEcn {
    /// The stored value never exceeds the significant bit width.
    pub open spec fn spec_wf(&self) -> bool {
        self.0 & 0x03 == self.0
    }

    pub open spec fn spec_has_mask(&self) -> bool {
        false
    }

    /// The payload bytes of this field.
    pub open spec fn spec_value_bytes(&self) -> Seq<u8> {
        seq![self.0]
    }

    /// What parsing a standard TLV as this field yields.
    pub open spec fn spec_parse_tlv(b: Seq<u8>) -> Result<FlowMatchField, Error> {
        if b.len() < 4 + 1 {
            Err(Error::Truncated)
        } else {
            Ok(FlowMatchField::IpEcn(IpEcn(b[4] & 0x03)))
        }
    }

    /// Create a new `IpEcn` field, truncated to the significant bits.
    pub fn new(value: u8) -> (r: Self)
        ensures
            r == IpEcn(value & 0x03),
            r.spec_wf(),
    {
        proof { wire::lemma_u8_and_idem(value, 0x03); }
        IpEcn(value & 0x03)
    }

    /// Replace the value, truncated to the significant bits.
    pub fn set_value(&mut self, value: u8)
        ensures
            *final(self) == IpEcn(value & 0x03),
            final(self).spec_wf(),
    {
        proof { wire::lemma_u8_and_idem(value, 0x03); }
        self.0 = value & 0x03;
    }

    /// The payload length in bytes.
    pub fn value_len(&self) -> (r: usize)
        ensures
            r == self.spec_value_bytes().len(),
            r == 1,
    {
        1
    }

    /// This field never carries a mask.
    pub fn has_mask(&self) -> (r: bool)
        ensures
            r == self.spec_has_mask(),
            r == false,
    {
        false
    }

    /// The `oxm_field` code of this field.
    pub fn code() -> (r: u8)
        ensures
            r == consts::IP_ECN,
    {
        consts::IP_ECN
    }

    /// Parse the payload of a checked standard TLV as this field.
    pub(crate) fn parse_tlv(packet: &Packet<'_>) -> (r: Result<FlowMatchField, Error>)
        requires
            packet.bytes().len() >= 4,
        ensures
            r == Self::spec_parse_tlv(packet.bytes()),
            r matches Ok(f) ==> f.spec_wf() && 5 <= f.spec_wire().len() <= packet.bytes().len(),
    {
        let value = packet.value();
        if value.len() < 1 {
            return Err(Error::Truncated);
        }
        let v = wire::read_u8_at(value, 0);
        Ok(FlowMatchField::IpEcn(IpEcn::new(v)))
    }

    /// Write the payload bytes at `buf[off]`.
    pub(crate) fn emit_value_at(&self, buf: &mut [u8], off: usize)
        requires
            off + self.spec_value_bytes().len() <= old(buf)@.len(),
        ensures
            final(buf)@ == wire::splice(old(buf)@, off as int, self.spec_value_bytes()),
    {
        wire::write_u8_at(buf, off, self.0);
    }

    /// Parsing the TLV this field emits, whatever bytes follow it,
    /// yields the field back.
    pub(crate) proof fn lemma_roundtrip(f: Self, rest: Seq<u8>)
        requires
            f.spec_wf(),
        ensures
            FlowMatchField::IpEcn(f).spec_wire().len() >= 5,
            crate::oxm::packet::tlv_class(FlowMatchField::IpEcn(f).spec_wire() + rest) == 0x8000,
            crate::oxm::packet::tlv_field(FlowMatchField::IpEcn(f).spec_wire() + rest) == consts::IP_ECN,
            crate::oxm::packet::tlv_length(FlowMatchField::IpEcn(f).spec_wire() + rest) == f.spec_value_bytes().len(),
            Self::spec_parse_tlv(FlowMatchField::IpEcn(f).spec_wire() + rest) == Ok::<FlowMatchField, Error>(FlowMatchField::IpEcn(f)),
    {
        let vb = f.spec_value_bytes();
        let w = FlowMatchField::IpEcn(f).spec_wire();
        let b = w + rest;
        super::lemma_std_tlv_header(consts::IP_ECN, f.spec_has_mask(), vb);
        assert forall|k: int| 0 <= k < w.len() implies b[k] == super::std_tlv(consts::IP_ECN,
            f.spec_has_mask(), vb)[k] by {}

    }
}

/// IP protocol number.  8-bit integer, not maskable.
#[derive(Debug, PartialEq, Eq, Clone)]
pub struct IpProtocol(pub u8);

impl IpProtocol {
    /// Always true: every stored value is significant in full.
    pub open spec fn spec_wf(&self) -> bool {
        true
    }

    pub open spec fn spec_has_mask(&self) -> bool {
        false
    }

    /// The payload bytes of this field.
    pub open spec fn spec_value_bytes(&self) -> Seq<u8> {
        seq![self.0]
    }

    /// What parsing a standard TLV as this field yields.
    pub open spec fn spec_parse_tlv(b: Seq<u8>) -> Result<FlowMatchField, Error> {
        if b.len() < 4 + 1 {
            Err(Error::Truncated)
        } else {
            Ok(FlowMatchField::IpProtocol(IpProtocol(b[4])))
        }
    }

    /// Create a new `IpProtocol` field.
    pub fn new(value: u8) -> (r: Self)
        ensures
            r == IpProtocol(value),
            r.spec_wf(),
    {
        IpProtocol(value)
    }

    /// Replace the value.
    pub fn set_value(&mut self, value: u8)
        ensures
            *final(self) == IpProtocol(value),
            final(self).spec_wf(),
    {
        self.0 = value;
    }

    /// The payload length in bytes.
    pub fn value_len(&self) -> (r: usize)
        ensures
            r == self.spec_value_bytes().len(),
            r == 1,
    {
        1
    }

    /// This field never carries a mask.
    pub fn has_mask(&self) -> (r: bool)
        ensures
            r == self.spec_has_mask(),
            r == false,
    {
        false
    }

    /// The `oxm_field` code of this field.
    pub fn code() -> (r: u8)
        ensures
            r == consts::IP_PROTOCOL,
    {
        consts::IP_PROTOCOL
    }

    /// Parse the payload of a checked standard TLV as this field.
    pub(crate) fn parse_tlv(packet: &Packet<'_>) -> (r: Result<FlowMatchField, Error>)
        requires
            packet.bytes().len() >= 4,
        ensures
            r == Self::spec_parse_tlv(packet.bytes()),
            r matches Ok(f) ==> f.spec_wf() && 5 <= f.spec_wire().len() <= packet.bytes().len(),
    {
        let value = packet.value();
        if value.len() < 1 {
            return Err(Error::Truncated);
        }
        let v = wire::read_u8_at(value, 0);
        Ok(FlowMatchField::IpProtocol(IpProtocol::new(v)))
    }

    /// Write the payload bytes at `buf[off]`.
    pub(crate) fn emit_value_at(&self, buf: &mut [u8], off: usize)
        requires
            off + self.spec_value_bytes().len() <= old(buf)@.len(),
        ensures
            final(buf)@ == wire::splice(old(buf)@, off as int, self.spec_value_bytes()),
    {
        wire::write_u8_at(buf, off, self.0);
    }

    /// Parsing the TLV this field emits, whatever bytes follow it,
    /// yields the field back.
    pub(crate) proof fn lemma_roundtrip(f: Self, rest: Seq<u8>)
        requires
            f.spec_wf(),
        ensures
            FlowMatchField::IpProtocol(f).spec_wire().len() >= 5,
            crate::oxm::packet::tlv_class(FlowMatchField::IpProtocol(f).spec_wire() + rest) == 0x8000,
            crate::oxm::packet::tlv_field(FlowMatchField::IpProtocol(f).spec_wire() + rest) == consts::IP_PROTOCOL,
            crate::oxm::packet::tlv_length(FlowMatchField::IpProtocol(f).spec_wire() + rest) == f.spec_value_bytes().len(),
            Self::spec_parse_tlv(FlowMatchField::IpProtocol(f).spec_wire() + rest) == Ok::<FlowMatchField, Error>(FlowMatchField::IpProtocol(f)),
    {
        let vb = f.spec_value_bytes();
        let w = FlowMatchField::IpProtocol(f).spec_wire();
        let b = w + rest;
        super::lemma_std_tlv_header(consts::IP_PROTOCOL, f.spec_has_mask(), vb);
        assert forall|k: int| 0 <= k < w.len() implies b[k] == super::std_tlv(consts::IP_PROTOCOL,
            f.spec_has_mask(), vb)[k] by {}

    }
}

/// IPv4 source address.  32-bit address, arbitrary masks.
#[derive(Debug, PartialEq, Eq, Clone)]
pub struct Ipv4Source {
    pub value: [u8; 4],
    pub mask: Option<[u8; 4]>,
}

impl Ipv4Source {
    /// Always true: every stored value is significant in full.
    pub open spec fn spec_wf(&self) -> bool {
        true
    }

    pub open spec fn spec_has_mask(&self) -> bool {
        self.mask is Some
    }

    /// The payload bytes: the value, then the mask when present.
    pub open spec fn spec_value_bytes(&self) -> Seq<u8> {
        match self.mask {
            Some(mk) => self.value@ + mk@,
            None => self.value@,
        }
    }

    /// What parsing a standard TLV as this field yields.
    pub open spec fn spec_parse_tlv(b: Seq<u8>) -> Result<FlowMatchField, Error> {
        if crate::oxm::packet::tlv_has_mask(b) {
            if b.len() < 4 + 8 {
                Err(Error::Truncated)
            } else {
                Ok(FlowMatchField::Ipv4Source(Ipv4Source {
                    value: wire::seq_to_arr::<4>(b.subrange(4, 8)),
                    mask: Some(wire::seq_to_arr::<4>(b.subrange(8, 12))),
                }))
            }
        } else {
            if b.len() < 4 + 4 {
                Err(Error::Truncated)
            } else {
                Ok(FlowMatchField::Ipv4Source(Ipv4Source {
                    value: wire::seq_to_arr::<4>(b.subrange(4, 8)),
                    mask: None,
                }))
            }
        }
    }

    /// Create a new `Ipv4Source` field from a value and an optional mask.
    pub fn new(value: [u8; 4], mask: Option<[u8; 4]>) -> (r: Self)
        ensures
            r == (Ipv4Source { value, mask }),
            r.spec_wf(),
    {
        Ipv4Source { value, mask }
    }

    /// Replace the value.
    pub fn set_value(&mut self, value: [u8; 4])
        ensures
            final(self).value == value,
            final(self).mask == old(self).mask,
            final(self).spec_wf(),
    {
        self.value = value;
    }

    /// Set the mask.
    pub fn set_mask(&mut self, mask: [u8; 4])
        ensures
            final(self).mask == Some(mask),
            final(self).value == old(self).value,
            final(self).spec_wf(),
    {
        self.mask = Some(mask);
    }

    /// Remove the mask.
    pub fn unset_mask(&mut self)
        ensures
            final(self).mask is None,
            final(self).value == old(self).value,
            final(self).spec_wf(),
    {
        self.mask = None;
    }

    /// The payload length: the base length, doubled when masked.
    pub fn value_len(&self) -> (r: usize)
        ensures
            r == self.spec_value_bytes().len(),
            self.mask is Some ==> r == 8,
            self.mask is None ==> r == 4,
    {
        if self.mask.is_some() { 8 } else { 4 }
    }

    /// Whether the payload carries a mask.
    pub fn has_mask(&self) -> (r: bool)
        ensures
            r == self.spec_has_mask(),
            r == (self.mask is Some),
    {
        self.mask.is_some()
    }

    /// The `oxm_field` code of this field.
    pub fn code() -> (r: u8)
        ensures
            r == consts::IPV4_SOURCE,
    {
        consts::IPV4_SOURCE
    }

    /// Parse the payload of a checked standard TLV as this field.
    pub(crate) fn parse_tlv(packet: &Packet<'_>) -> (r: Result<FlowMatchField, Error>)
        requires
            packet.bytes().len() >= 4,
        ensures
            r == Self::spec_parse_tlv(packet.bytes()),
            r matches Ok(f) ==> f.spec_wf() && 5 <= f.spec_wire().len() <= packet.bytes().len(),
    {
        let value = packet.value();
        if packet.has_mask() {
            if value.len() < 8 {
                return Err(Error::Truncated);
            }
            let v = wire::read_bytes_at::<4>(value, 0);
            let mk = wire::read_bytes_at::<4>(value, 4);
            proof {
                assert(value@.subrange(0, 4) =~= packet.bytes().subrange(4, 8));
                assert(value@.subrange(4, 8) =~= packet.bytes().subrange(8, 12));
                wire::lemma_seq_to_arr(v);
                wire::lemma_seq_to_arr(mk);
            }
            Ok(FlowMatchField::Ipv4Source(Ipv4Source::new(v, Some(mk))))
        } else {
            if value.len() < 4 {
                return Err(Error::Truncated);
            }
            let v = wire::read_bytes_at::<4>(value, 0);
            proof {
                assert(value@.subrange(0, 4) =~= packet.bytes().subrange(4, 8));
                wire::lemma_seq_to_arr(v);
            }
            Ok(FlowMatchField::Ipv4Source(Ipv4Source::new(v, None)))
        }
    }

    /// Write the payload bytes at `buf[off]`.
    pub(crate) fn emit_value_at(&self, buf: &mut [u8], off: usize)
        requires
            off + self.spec_value_bytes().len() <= old(buf)@.len(),
        ensures
            final(buf)@ == wire::splice(old(buf)@, off as int, self.spec_value_bytes()),
    {
        wire::write_bytes_at(buf, off, self.value.as_slice());
        match self.mask {
            Some(mk) => {
                let blen = buf.len();
                assert(off + 8 <= blen);
                wire::write_bytes_at(buf, off + 4, mk.as_slice());
                proof {
                    wire::lemma_splice_adjacent(old(buf)@, off as int, self.value@, mk@);
                }
            },
            None => {},
        }
    }

    /// Parsing the TLV this field emits, whatever bytes follow it,
    /// yields the field back.
    pub(crate) proof fn lemma_roundtrip(f: Self, rest: Seq<u8>)
        requires
            f.spec_wf(),
        ensures
            FlowMatchField::Ipv4Source(f).spec_wire().len() >= 5,
            crate::oxm::packet::tlv_class(FlowMatchField::Ipv4Source(f).spec_wire() + rest) == 0x8000,
            crate::oxm::packet::tlv_field(FlowMatchField::Ipv4Source(f).spec_wire() + rest) == consts::IPV4_SOURCE,
            crate::oxm::packet::tlv_length(FlowMatchField::Ipv4Source(f).spec_wire() + rest) == f.spec_value_bytes().len(),
            Self::spec_parse_tlv(FlowMatchField::Ipv4Source(f).spec_wire() + rest) == Ok::<FlowMatchField, Error>(FlowMatchField::Ipv4Source(f)),
    {
        let vb = f.spec_value_bytes();
        let w = FlowMatchField::Ipv4Source(f).spec_wire();
        let b = w + rest;
        super::lemma_std_tlv_header(consts::IPV4_SOURCE, f.spec_has_mask(), vb);
        assert forall|k: int| 0 <= k < w.len() implies b[k] == super::std_tlv(consts::IPV4_SOURCE,
            f.spec_has_mask(), vb)[k] by {}
        match f.mask {
            Some(mk) => {
                assert(b.subrange(4, 8) =~= f.value@);
                assert(b.subrange(8, 12) =~= mk@);
                wire::lemma_seq_to_arr(f.value);
                wire::lemma_seq_to_arr(mk);
            },
            None => {
                assert(b.subrange(4, 8) =~= f.value@);
                wire::lemma_seq_to_arr(f.value);
            },
        }
    }
}

/// IPv4 destination address.  32-bit address, arbitrary masks.
#[derive(Debug, PartialEq, Eq, Clone)]
pub struct Ipv4Destination {
    pub value: [u8; 4],
    pub mask: Option<[u8; 4]>,
}

impl Ipv4Destination {
    /// Always true: every stored value is significant in full.
    pub open spec fn spec_wf(&self) -> bool {
        true
    }

    pub open spec fn spec_has_mask(&self) -> bool {
        self.mask is Some
    }

    /// The payload bytes: the value, then the mask when present.
    pub open spec fn spec_value_bytes(&self) -> Seq<u8> {
        match self.mask {
            Some(mk) => self.value@ + mk@,
            None => self.value@,
        }
    }

    /// What parsing a standard TLV as this field yields.
    pub open spec fn spec_parse_tlv(b: Seq<u8>) -> Result<FlowMatchField, Error> {
        if crate::oxm::packet::tlv_has_mask(b) {
            if b.len() < 4 + 8 {
                Err(Error::Truncated)
            } else {
                Ok(FlowMatchField::Ipv4Destination(Ipv4Destination {
                    value: wire::seq_to_arr::<4>(b.subrange(4, 8)),
                    mask: Some(wire::seq_to_arr::<4>(b.subrange(8, 12))),
                }))
            }
        } else {
            if b.len() < 4 + 4 {
                Err(Error::Truncated)
            } else {
                Ok(FlowMatchField::Ipv4Destination(Ipv4Destination {
                    value: wire::seq_to_arr::<4>(b.subrange(4, 8)),
                    mask: None,
                }))
            }
        }
    }

    /// Create a new `Ipv4Destination` field from a value and an optional mask.
    pub fn new(value: [u8; 4], mask: Option<[u8; 4]>) -> (r: Self)
        ensures
            r == (Ipv4Destination { value, mask }),
            r.spec_wf(),
    {
        Ipv4Destination { value, mask }
    }

    /// Replace the value.
    pub fn set_value(&mut self, value: [u8; 4])
        ensures
            final(self).value == value,
            final(self).mask == old(self).mask,
            final(self).spec_wf(),
    {
        self.value = value;
    }

    /// Set the mask.
    pub fn set_mask(&mut self, mask: [u8; 4])
        ensures
            final(self).mask == Some(mask),
            final(self).value == old(self).value,
            final(self).spec_wf(),
    {
        self.mask = Some(mask);
    }

    /// Remove the mask.
    pub fn unset_mask(&mut self)
        ensures
            final(self).mask is None,
            final(self).value == old(self).value,
            final(self).spec_wf(),
    {
        self.mask = None;
    }

    /// The payload length: the base length, doubled when masked.
    pub fn value_len(&self) -> (r: usize)
        ensures
            r == self.spec_value_bytes().len(),
            self.mask is Some ==> r == 8,
            self.mask is None ==> r == 4,
    {
        if self.mask.is_some() { 8 } else { 4 }
    }

    /// Whether the payload carries a mask.
    pub fn has_mask(&self) -> (r: bool)
        ensures
            r == self.spec_has_mask(),
            r == (self.mask is Some),
    {
        self.mask.is_some()
    }

    /// The `oxm_field` code of this field.
    pub fn code() -> (r: u8)
        ensures
            r == consts::IPV4_DESTINATION,
    {
        consts::IPV4_DESTINATION
    }

    /// Parse the payload of a checked standard TLV as this field.
    pub(crate) fn parse_tlv(packet: &Packet<'_>) -> (r: Result<FlowMatchField, Error>)
        requires
            packet.bytes().len() >= 4,
        ensures
            r == Self::spec_parse_tlv(packet.bytes()),
            r matches Ok(f) ==> f.spec_wf() && 5 <= f.spec_wire().len() <= packet.bytes().len(),
    {
        let value = packet.value();
        if packet.has_mask() {
            if value.len() < 8 {
                return Err(Error::Truncated);
            }
            let v = wire::read_bytes_at::<4>(value, 0);
            let mk = wire::read_bytes_at::<4>(value, 4);
            proof {
                assert(value@.subrange(0, 4) =~= packet.bytes().subrange(4, 8));
                assert(value@.subrange(4, 8) =~= packet.bytes().subrange(8, 12));
                wire::lemma_seq_to_arr(v);
                wire::lemma_seq_to_arr(mk);
            }
            Ok(FlowMatchField::Ipv4Destination(Ipv4Destination::new(v, Some(mk))))
        } else {
            if value.len() < 4 {
                return Err(Error::Truncated);
            }
            let v = wire::read_bytes_at::<4>(value, 0);
            proof {
                assert(value@.subrange(0, 4) =~= packet.bytes().subrange(4, 8));
                wire::lemma_seq_to_arr(v);
            }
            Ok(FlowMatchField::Ipv4Destination(Ipv4Destination::new(v, None)))
        }
    }

    /// Write the payload bytes at `buf[off]`.
    pub(crate) fn emit_value_at(&self, buf: &mut [u8], off: usize)
        requires
            off + self.spec_value_bytes().len() <= old(buf)@.len(),
        ensures
            final(buf)@ == wire::splice(old(buf)@, off as int, self.spec_value_bytes()),
    {
        wire::write_bytes_at(buf, off, self.value.as_slice());
        match self.mask {
            Some(mk) => {
                let blen = buf.len();
                assert(off + 8 <= blen);
                wire::write_bytes_at(buf, off + 4, mk.as_slice());
                proof {
                    wire::lemma_splice_adjacent(old(buf)@, off as int, self.value@, mk@);
                }
            },
            None => {},
        }
    }

    /// Parsing the TLV this field emits, whatever bytes follow it,
    /// yields the field back.
    pub(crate) proof fn lemma_roundtrip(f: Self, rest: Seq<u8>)
        requires
            f.spec_wf(),
        ensures
            FlowMatchField::Ipv4Destination(f).spec_wire().len() >= 5,
            crate::oxm::packet::tlv_class(FlowMatchField::Ipv4Destination(f).spec_wire() + rest) == 0x8000,
            crate::oxm::packet::tlv_field(FlowMatchField::Ipv4Destination(f).spec_wire() + rest) == consts::IPV4_DESTINATION,
            crate::oxm::packet::tlv_length(FlowMatchField::Ipv4Destination(f).spec_wire() + rest) == f.spec_value_bytes().len(),
            Self::spec_parse_tlv(FlowMatchField::Ipv4Destination(f).spec_wire() + rest) == Ok::<FlowMatchField, Error>(FlowMatchField::Ipv4Destination(f)),
    {
        let vb = f.spec_value_bytes();
        let w = FlowMatchField::Ipv4Destination(f).spec_wire();
        let b = w + rest;
        super::lemma_std_tlv_header(consts::IPV4_DESTINATION, f.spec_has_mask(), vb);
        assert forall|k: int| 0 <= k < w.len() implies b[k] == super::std_tlv(consts::IPV4_DESTINATION,
            f.spec_has_mask(), vb)[k] by {}
        match f.mask {
            Some(mk) => {
                assert(b.subrange(4, 8) =~= f.value@);
                assert(b.subrange(8, 12) =~= mk@);
                wire::lemma_seq_to_arr(f.value);
                wire::lemma_seq_to_arr(mk);
            },
            None => {
                assert(b.subrange(4, 8) =~= f.value@);
                wire::lemma_seq_to_arr(f.value);
            },
        }
    }
}

/// TCP source port.  16-bit integer, not maskable.
#[derive(Debug, PartialEq, Eq, Clone)]
pub struct TcpSource(pub u16);

impl TcpSource {
    /// Always true: every stored value is significant in full.
    pub open spec fn spec_wf(&self) -> bool {
        true
    }

    pub open spec fn spec_has_mask(&self) -> bool {
        false
    }

    /// The payload bytes of this field.
    pub open spec fn spec_value_bytes(&self) -> Seq<u8> {
        wire::spec_u16_be(self.0)
    }

    /// What parsing a standard TLV as this field yields.
    pub open spec fn spec_parse_tlv(b: Seq<u8>) -> Result<FlowMatchField, Error> {
        if b.len() < 4 + 2 {
            Err(Error::Truncated)
        } else {
            Ok(FlowMatchField::TcpSource(TcpSource(wire::spec_read_u16(b, 4))))
        }
    }

    /// Create a new `TcpSource` field.
    pub fn new(value: u16) -> (r: Self)
        ensures
            r == TcpSource(value),
            r.spec_wf(),
    {
        TcpSource(value)
    }

    /// Replace the value.
    pub fn set_value(&mut self, value: u16)
        ensures
            *final(self) == TcpSource(value),
            final(self).spec_wf(),
    {
        self.0 = value;
    }

    /// The payload length in bytes.
    pub fn value_len(&self) -> (r: usize)
        ensures
            r == self.spec_value_bytes().len(),
            r == 2,
    {
        2
    }

    /// This field never carries a mask.
    pub fn has_mask(&self) -> (r: bool)
        ensures
            r == self.spec_has_mask(),
            r == false,
    {
        false
    }

    /// The `oxm_field` code of this field.
    pub fn code() -> (r: u8)
        ensures
            r == consts::TCP_SOURCE,
    {
        consts::TCP_SOURCE
    }

    /// Parse the payload of a checked standard TLV as this field.
    pub(crate) fn parse_tlv(packet: &Packet<'_>) -> (r: Result<FlowMatchField, Error>)
        requires
            packet.bytes().len() >= 4,
        ensures
            r == Self::spec_parse_tlv(packet.bytes()),
            r matches Ok(f) ==> f.spec_wf() && 5 <= f.spec_wire().len() <= packet.bytes().len(),
    {
        let value = packet.value();
        if value.len() < 2 {
            return Err(Error::Truncated);
        }
        let v = wire::read_u16_at(value, 0);
        Ok(FlowMatchField::TcpSource(TcpSource::new(v)))
    }

    /// Write the payload bytes at `buf[off]`.
    pub(crate) fn emit_value_at(&self, buf: &mut [u8], off: usize)
        requires
            off + self.spec_value_bytes().len() <= old(buf)@.len(),
        ensures
            final(buf)@ == wire::splice(old(buf)@, off as int, self.spec_value_bytes()),
    {
        wire::write_u16_at(buf, off, self.0);
    }

    /// Parsing the TLV this field emits, whatever bytes follow it,
    /// yields the field back.
    pub(crate) proof fn lemma_roundtrip(f: Self, rest: Seq<u8>)
        requires
            f.spec_wf(),
        ensures
            FlowMatchField::TcpSource(f).spec_wire().len() >= 5,
            crate::oxm::packet::tlv_class(FlowMatchField::TcpSource(f).spec_wire() + rest) == 0x8000,
            crate::oxm::packet::tlv_field(FlowMatchField::TcpSource(f).spec_wire() + rest) == consts::TCP_SOURCE,
            crate::oxm::packet::tlv_length(FlowMatchField::TcpSource(f).spec_wire() + rest) == f.spec_value_bytes().len(),
            Self::spec_parse_tlv(FlowMatchField::TcpSource(f).spec_wire() + rest) == Ok::<FlowMatchField, Error>(FlowMatchField::TcpSource(f)),
    {
        let vb = f.spec_value_bytes();
        let w = FlowMatchField::TcpSource(f).spec_wire();
        let b = w + rest;
        super::lemma_std_tlv_header(consts::TCP_SOURCE, f.spec_has_mask(), vb);
        assert forall|k: int| 0 <= k < w.len() implies b[k] == super::std_tlv(consts::TCP_SOURCE,
            f.spec_has_mask(), vb)[k] by {}
        wire::lemma_u16_roundtrip(b, 4, f.0);
    }
}

/// TCP destination port.  16-bit integer, not maskable.
#[derive(Debug, PartialEq, Eq, Clone)]
pub struct TcpDestination(pub u16);

impl TcpDestination {
    /// Always true: every stored value is significant in full.
    pub open spec fn spec_wf(&self) -> bool {
        true
    }

    pub open spec fn spec_has_mask(&self) -> bool {
        false
    }

    /// The payload bytes of this field.
    pub open spec fn spec_value_bytes(&self) -> Seq<u8> {
        wire::spec_u16_be(self.0)
    }

    /// What parsing a standard TLV as this field yields.
    pub open spec fn spec_parse_tlv(b: Seq<u8>) -> Result<FlowMatchField, Error> {
        if b.len() < 4 + 2 {
            Err(Error::Truncated)
        } else {
            Ok(FlowMatchField::TcpDestination(TcpDestination(wire::spec_read_u16(b, 4))))
        }
    }

    /// Create a new `TcpDestination` field.
    pub fn new(value: u16) -> (r: Self)
        ensures
            r == TcpDestination(value),
            r.spec_wf(),
    {
        TcpDestination(value)
    }

    /// Replace the value.
    pub fn set_value(&mut self, value: u16)
        ensures
            *final(self) == TcpDestination(value),
            final(self).spec_wf(),
    {
        self.0 = value;
    }

    /// The payload length in bytes.
    pub fn value_len(&self) -> (r: usize)
        ensures
            r == self.spec_value_bytes().len(),
            r == 2,
    {
        2
    }

    /// This field never carries a mask.
    pub fn has_mask(&self) -> (r: bool)
        ensures
            r == self.spec_has_mask(),
            r == false,
    {
        false
    }

    /// The `oxm_field` code of this field.
    pub fn code() -> (r: u8)
        ensures
            r == consts::TCP_DESTINATION,
    {
        consts::TCP_DESTINATION
    }

    /// Parse the payload of a checked standard TLV as this field.
    pub(crate) fn parse_tlv(packet: &Packet<'_>) -> (r: Result<FlowMatchField, Error>)
        requires
            packet.bytes().len() >= 4,
        ensures
            r == Self::spec_parse_tlv(packet.bytes()),
            r matches Ok(f) ==> f.spec_wf() && 5 <= f.spec_wire().len() <= packet.bytes().len(),
    {
        let value = packet.value();
        if value.len() < 2 {
            return Err(Error::Truncated);
        }
        let v = wire::read_u16_at(value, 0);
        Ok(FlowMatchField::TcpDestination(TcpDestination::new(v)))
    }

    /// Write the payload bytes at `buf[off]`.
    pub(crate) fn emit_value_at(&self, buf: &mut [u8], off: usize)
        requires
            off + self.spec_value_bytes().len() <= old(buf)@.len(),
        ensures
            final(buf)@ == wire::splice(old(buf)@, off as int, self.spec_value_bytes()),
    {
        wire::write_u16_at(buf, off, self.0);
    }

    /// Parsing the TLV this field emits, whatever bytes follow it,
    /// yields the field back.
    pub(crate) proof fn lemma_roundtrip(f: Self, rest: Seq<u8>)
        requires
            f.spec_wf(),
        ensures
            FlowMatchField::TcpDestination(f).spec_wire().len() >= 5,
            crate::oxm::packet::tlv_class(FlowMatchField::TcpDestination(f).spec_wire() + rest) == 0x8000,
            crate::oxm::packet::tlv_field(FlowMatchField::TcpDestination(f).spec_wire() + rest) == consts::TCP_DESTINATION,
            crate::oxm::packet::tlv_length(FlowMatchField::TcpDestination(f).spec_wire() + rest) == f.spec_value_bytes().len(),
            Self::spec_parse_tlv(FlowMatchField::TcpDestination(f).spec_wire() + rest) == Ok::<FlowMatchField, Error>(FlowMatchField::TcpDestination(f)),
    {
        let vb = f.spec_value_bytes();
        let w = FlowMatchField::TcpDestination(f).spec_wire();
        let b = w + rest;
        super::lemma_std_tlv_header(consts::TCP_DESTINATION, f.spec_has_mask(), vb);
        assert forall|k: int| 0 <= k < w.len() implies b[k] == super::std_tlv(consts::TCP_DESTINATION,
            f.spec_has_mask(), vb)[k] by {}
        wire::lemma_u16_roundtrip(b, 4, f.0);
    }
}

/// UDP source port.  16-bit integer, not maskable.
#[derive(Debug, PartialEq, Eq, Clone)]
pub struct UdpSource(pub u16);

impl UdpSource {
    /// Always true: every stored value is significant in full.
    pub open spec fn spec_wf(&self) -> bool {
        true
    }

    pub open spec fn spec_has_mask(&self) -> bool {
        false
    }

    /// The payload bytes of this field.
    pub open spec fn spec_value_bytes(&self) -> Seq<u8> {
        wire::spec_u16_be(self.0)
    }

    /// What parsing a standard TLV as this field yields.
    pub open spec fn spec_parse_tlv(b: Seq<u8>) -> Result<FlowMatchField, Error> {
        if b.len() < 4 + 2 {
            Err(Error::Truncated)
        } else {
            Ok(FlowMatchField::UdpSource(UdpSource(wire::spec_read_u16(b, 4))))
        }
    }

    /// Create a new `UdpSource` field.
    pub fn new(value: u16) -> (r: Self)
        ensures
            r == UdpSource(value),
            r.spec_wf(),
    {
        UdpSource(value)
    }

    /// Replace the value.
    pub fn set_value(&mut self, value: u16)
        ensures
            *final(self) == UdpSource(value),
            final(self).spec_wf(),
    {
        self.0 = value;
    }

    /// The payload length in bytes.
    pub fn value_len(&self) -> (r: usize)
        ensures
            r == self.spec_value_bytes().len(),
            r == 2,
    {
        2
    }

    /// This field never carries a mask.
    pub fn has_mask(&self) -> (r: bool)
        ensures
            r == self.spec_has_mask(),
            r == false,
    {
        false
    }

    /// The `oxm_field` code of this field.
    pub fn code() -> (r: u8)
        ensures
            r == consts::UDP_SOURCE,
    {
        consts::UDP_SOURCE
    }

    /// Parse the payload of a checked standard TLV as this field.
    pub(crate) fn parse_tlv(packet: &Packet<'_>) -> (r: Result<FlowMatchField, Error>)
        requires
            packet.bytes().len() >= 4,
        ensures
            r == Self::spec_parse_tlv(packet.bytes()),
            r matches Ok(f) ==> f.spec_wf() && 5 <= f.spec_wire().len() <= packet.bytes().len(),
    {
        let value = packet.value();
        if value.len() < 2 {
            return Err(Error::Truncated);
        }
        let v = wire::read_u16_at(value, 0);
        Ok(FlowMatchField::UdpSource(UdpSource::new(v)))
    }

    /// Write the payload bytes at `buf[off]`.
    pub(crate) fn emit_value_at(&self, buf: &mut [u8], off: usize)
        requires
            off + self.spec_value_bytes().len() <= old(buf)@.len(),
        ensures
            final(buf)@ == wire::splice(old(buf)@, off as int, self.spec_value_bytes()),
    {
        wire::write_u16_at(buf, off, self.0);
    }

    /// Parsing the TLV this field emits, whatever bytes follow it,
    /// yields the field back.
    pub(crate) proof fn lemma_roundtrip(f: Self, rest: Seq<u8>)
        requires
            f.spec_wf(),
        ensures
            FlowMatchField::UdpSource(f).spec_wire().len() >= 5,
            crate::oxm::packet::tlv_class(FlowMatchField::UdpSource(f).spec_wire() + rest) == 0x8000,
            crate::oxm::packet::tlv_field(FlowMatchField::UdpSource(f).spec_wire() + rest) == consts::UDP_SOURCE,
            crate::oxm::packet::tlv_length(FlowMatchField::UdpSource(f).spec_wire() + rest) == f.spec_value_bytes().len(),
            Self::spec_parse_tlv(FlowMatchField::UdpSource(f).spec_wire() + rest) == Ok::<FlowMatchField, Error>(FlowMatchField::UdpSource(f)),
    {
        let vb = f.spec_value_bytes();
        let w = FlowMatchField::UdpSource(f).spec_wire();
        let b = w + rest;
        super::lemma_std_tlv_header(consts::UDP_SOURCE, f.spec_has_mask(), vb);
        assert forall|k: int| 0 <= k < w.len() implies b[k] == super::std_tlv(consts::UDP_SOURCE,
            f.spec_has_mask(), vb)[k] by {}
        wire::lemma_u16_roundtrip(b, 4, f.0);
    }
}

/// UDP destination port.  16-bit integer, not maskable.
#[derive(Debug, PartialEq, Eq, Clone)]
pub struct UdpDestination(pub u16);

impl UdpDestination {
    /// Always true: every stored value is significant in full.
    pub open spec fn spec_wf(&self) -> bool {
        true
    }

    pub open spec fn spec_has_mask(&self) -> bool {
        false
    }

    /// The payload bytes of this field.
    pub open spec fn spec_value_bytes(&self) -> Seq<u8> {
        wire::spec_u16_be(self.0)
    }

    /// What parsing a standard TLV as this field yields.
    pub open spec fn spec_parse_tlv(b: Seq<u8>) -> Result<FlowMatchField, Error> {
        if b.len() < 4 + 2 {
            Err(Error::Truncated)
        } else {
            Ok(FlowMatchField::UdpDestination(UdpDestination(wire::spec_read_u16(b, 4))))
        }
    }

    /// Create a new `UdpDestination` field.
    pub fn new(value: u16) -> (r: Self)
        ensures
            r == UdpDestination(value),
            r.spec_wf(),
    {
        UdpDestination(value)
    }

    /// Replace the value.
    pub fn set_value(&mut self, value: u16)
        ensures
            *final(self) == UdpDestination(value),
            final(self).spec_wf(),
    {
        self.0 = value;
    }

    /// The payload length in bytes.
    pub fn value_len(&self) -> (r: usize)
        ensures
            r == self.spec_value_bytes().len(),
            r == 2,
    {
        2
    }

    /// This field never carries a mask.
    pub fn has_mask(&self) -> (r: bool)
        ensures
            r == self.spec_has_mask(),
            r == false,
    {
        false
    }

    /// The `oxm_field` code of this field.
    pub fn code() -> (r: u8)
        ensures
            r == consts::UDP_DESTINATION,
    {
        consts::UDP_DESTINATION
    }

    /// Parse the payload of a checked standard TLV as this field.
    pub(crate) fn parse_tlv(packet: &Packet<'_>) -> (r: Result<FlowMatchField, Error>)
        requires
            packet.bytes().len() >= 4,
        ensures
            r == Self::spec_parse_tlv(packet.bytes()),
            r matches Ok(f) ==> f.spec_wf() && 5 <= f.spec_wire().len() <= packet.bytes().len(),
    {
        let value = packet.value();
        if value.len() < 2 {
            return Err(Error::Truncated);
        }
        let v = wire::read_u16_at(value, 0);
        Ok(FlowMatchField::UdpDestination(UdpDestination::new(v)))
    }

    /// Write the payload bytes at `buf[off]`.
    pub(crate) fn emit_value_at(&self, buf: &mut [u8], off: usize)
        requires
            off + self.spec_value_bytes().len() <= old(buf)@.len(),
        ensures
            final(buf)@ == wire::splice(old(buf)@, off as int, self.spec_value_bytes()),
    {
        wire::write_u16_at(buf, off, self.0);
    }

    /// Parsing the TLV this field emits, whatever bytes follow it,
    /// yields the field back.
    pub(crate) proof fn lemma_roundtrip(f: Self, rest: Seq<u8>)
        requires
            f.spec_wf(),
        ensures
            FlowMatchField::UdpDestination(f).spec_wire().len() >= 5,
            crate::oxm::packet::tlv_class(FlowMatchField::UdpDestination(f).spec_wire() + rest) == 0x8000,
            crate::oxm::packet::tlv_field(FlowMatchField::UdpDestination(f).spec_wire() + rest) == consts::UDP_DESTINATION,
            crate::oxm::packet::tlv_length(FlowMatchField::UdpDestination(f).spec_wire() + rest) == f.spec_value_bytes().len(),
            Self::spec_parse_tlv(FlowMatchField::UdpDestination(f).spec_wire() + rest) == Ok::<FlowMatchField, Error>(FlowMatchField::UdpDestination(f)),
    {
        let vb = f.spec_value_bytes();
        let w = FlowMatchField::UdpDestination(f).spec_wire();
        let b = w + rest;
        super::lemma_std_tlv_header(consts::UDP_DESTINATION, f.spec_has_mask(), vb);
        assert forall|k: int| 0 <= k < w.len() implies b[k] == super::std_tlv(consts::UDP_DESTINATION,
            f.spec_has_mask(), vb)[k] by {}
        wire::lemma_u16_roundtrip(b, 4, f.0);
    }
}

/// SCTP source port.  16-bit integer, not maskable.
#[derive(Debug, PartialEq, Eq, Clone)]
pub struct SctpSource(pub u16);

impl SctpSource {
    /// Always true: every stored value is significant in full.
    pub open spec fn spec_wf(&self) -> bool {
        true
    }

    pub open spec fn spec_has_mask(&self) -> bool {
        false
    }

    /// The payload bytes of this field.
    pub open spec fn spec_value_bytes(&self) -> Seq<u8> {
        wire::spec_u16_be(self.0)
    }

    /// What parsing a standard TLV as this field yields.
    pub open spec fn spec_parse_tlv(b: Seq<u8>) -> Result<FlowMatchField, Error> {
        if b.len() < 4 + 2 {
            Err(Error::Truncated)
        } else {
            Ok(FlowMatchField::SctpSource(SctpSource(wire::spec_read_u16(b, 4))))
        }
    }

    /// Create a new `SctpSource` field.
    pub fn new(value: u16) -> (r: Self)
        ensures
            r == SctpSource(value),
            r.spec_wf(),
    {
        SctpSource(value)
    }

    /// Replace the value.
    pub fn set_value(&mut self, value: u16)
        ensures
            *final(self) == SctpSource(value),
            final(self).spec_wf(),
    {
        self.0 = value;
    }

    /// The payload length in bytes.
    pub fn value_len(&self) -> (r: usize)
        ensures
            r == self.spec_value_bytes().len(),
            r == 2,
    {
        2
    }

    /// This field never carries a mask.
    pub fn has_mask(&self) -> (r: bool)
        ensures
            r == self.spec_has_mask(),
            r == false,
    {
        false
    }

    /// The `oxm_field` code of this field.
    pub fn code() -> (r: u8)
        ensures
            r == consts::SCTP_SOURCE,
    {
        consts::SCTP_SOURCE
    }

    /// Parse the payload of a checked standard TLV as this field.
    pub(crate) fn parse_tlv(packet: &Packet<'_>) -> (r: Result<FlowMatchField, Error>)
        requires
            packet.bytes().len() >= 4,
        ensures
            r == Self::spec_parse_tlv(packet.bytes()),
            r matches Ok(f) ==> f.spec_wf() && 5 <= f.spec_wire().len() <= packet.bytes().len(),
    {
        let value = packet.value();
        if value.len() < 2 {
            return Err(Error::Truncated);
        }
        let v = wire::read_u16_at(value, 0);
        Ok(FlowMatchField::SctpSource(SctpSource::new(v)))
    }

    /// Write the payload bytes at `buf[off]`.
    pub(crate) fn emit_value_at(&self, buf: &mut [u8], off: usize)
        requires
            off + self.spec_value_bytes().len() <= old(buf)@.len(),
        ensures
            final(buf)@ == wire::splice(old(buf)@, off as int, self.spec_value_bytes()),
    {
        wire::write_u16_at(buf, off, self.0);
    }

    /// Parsing the TLV this field emits, whatever bytes follow it,
    /// yields the field back.
    pub(crate) proof fn lemma_roundtrip(f: Self, rest: Seq<u8>)
        requires
            f.spec_wf(),
        ensures
            FlowMatchField::SctpSource(f).spec_wire().len() >= 5,
            crate::oxm::packet::tlv_class(FlowMatchField::SctpSource(f).spec_wire() + rest) == 0x8000,
            crate::oxm::packet::tlv_field(FlowMatchField::SctpSource(f).spec_wire() + rest) == consts::SCTP_SOURCE,
            crate::oxm::packet::tlv_length(FlowMatchField::SctpSource(f).spec_wire() + rest) == f.spec_value_bytes().len(),
            Self::spec_parse_tlv(FlowMatchField::SctpSource(f).spec_wire() + rest) == Ok::<FlowMatchField, Error>(FlowMatchField::SctpSource(f)),
    {
        let vb = f.spec_value_bytes();
        let w = FlowMatchField::SctpSource(f).spec_wire();
        let b = w + rest;
        super::lemma_std_tlv_header(consts::SCTP_SOURCE, f.spec_has_mask(), vb);
        assert forall|k: int| 0 <= k < w.len() implies b[k] == super::std_tlv(consts::SCTP_SOURCE,
            f.spec_has_mask(), vb)[k] by {}
        wire::lemma_u16_roundtrip(b, 4, f.0);
    }
}

/// SCTP destination port.  16-bit integer, not maskable.
#[derive(Debug, PartialEq, Eq, Clone)]
pub struct SctpDestination(pub u16);

impl SctpDestination {
    /// Always true: every stored value is significant in full.
    pub open spec fn spec_wf(&self) -> bool {
        true
    }

    pub open spec fn spec_has_mask(&self) -> bool {
        false
    }

    /// The payload bytes of this field.
    pub open spec fn spec_value_bytes(&self) -> Seq<u8> {
        wire::spec_u16_be(self.0)
    }

    /// What parsing a standard TLV as this field yields.
    pub open spec fn spec_parse_tlv(b: Seq<u8>) -> Result<FlowMatchField, Error> {
        if b.len() < 4 + 2 {
            Err(Error::Truncated)
        } else {
            Ok(FlowMatchField::SctpDestination(SctpDestination(wire::spec_read_u16(b, 4))))
        }
    }

    /// Create a new `SctpDestination` field.
    pub fn new(value: u16) -> (r: Self)
        ensures
            r == SctpDestination(value),
            r.spec_wf(),
    {
        SctpDestination(value)
    }

    /// Replace the value.
    pub fn set_value(&mut self, value: u16)
        ensures
            *final(self) == SctpDestination(value),
            final(self).spec_wf(),
    {
        self.0 = value;
    }

    /// The payload length in bytes.
    pub fn value_len(&self) -> (r: usize)
        ensures
            r == self.spec_value_bytes().len(),
            r == 2,
    {
        2
    }

    /// This field never carries a mask.
    pub fn has_mask(&self) -> (r: bool)
        ensures
            r == self.spec_has_mask(),
            r == false,
    {
        false
    }

    /// The `oxm_field` code of this field.
    pub fn code() -> (r: u8)
        ensures
            r == consts::SCTP_DESTINATION,
    {
        consts::SCTP_DESTINATION
    }

    /// Parse the payload of a checked standard TLV as this field.
    pub(crate) fn parse_tlv(packet: &Packet<'_>) -> (r: Result<FlowMatchField, Error>)
        requires
            packet.bytes().len() >= 4,
        ensures
            r == Self::spec_parse_tlv(packet.bytes()),
            r matches Ok(f) ==> f.spec_wf() && 5 <= f.spec_wire().len() <= packet.bytes().len(),
    {
        let value = packet.value();
        if value.len() < 2 {
            return Err(Error::Truncated);
        }
        let v = wire::read_u16_at(value, 0);
        Ok(FlowMatchField::SctpDestination(SctpDestination::new(v)))
    }

    /// Write the payload bytes at `buf[off]`.
    pub(crate) fn emit_value_at(&self, buf: &mut [u8], off: usize)
        requires
            off + self.spec_value_bytes().len() <= old(buf)@.len(),
        ensures
            final(buf)@ == wire::splice(old(buf)@, off as int, self.spec_value_bytes()),
    {
        wire::write_u16_at(buf, off, self.0);
    }

    /// Parsing the TLV this field emits, whatever bytes follow it,
    /// yields the field back.
    pub(crate) proof fn lemma_roundtrip(f: Self, rest: Seq<u8>)
        requires
            f.spec_wf(),
        ensures
            FlowMatchField::SctpDestination(f).spec_wire().len() >= 5,
            crate::oxm::packet::tlv_class(FlowMatchField::SctpDestination(f).spec_wire() + rest) == 0x8000,
            crate::oxm::packet::tlv_field(FlowMatchField::SctpDestination(f).spec_wire() + rest) == consts::SCTP_DESTINATION,
            crate::oxm::packet::tlv_length(FlowMatchField::SctpDestination(f).spec_wire() + rest) == f.spec_value_bytes().len(),
            Self::spec_parse_tlv(FlowMatchField::SctpDestination(f).spec_wire() + rest) == Ok::<FlowMatchField, Error>(FlowMatchField::SctpDestination(f)),
    {
        let vb = f.spec_value_bytes();
        let w = FlowMatchField::SctpDestination(f).spec_wire();
        let b = w + rest;
        super::lemma_std_tlv_header(consts::SCTP_DESTINATION, f.spec_has_mask(), vb);
        assert forall|k: int| 0 <= k < w.len() implies b[k] == super::std_tlv(consts::SCTP_DESTINATION,
            f.spec_has_mask(), vb)[k] by {}
        wire::lemma_u16_roundtrip(b, 4, f.0);
    }
}

/// ICMP type.  8-bit integer, not maskable.
#[derive(Debug, PartialEq, Eq, Clone)]
pub struct IcmpType(pub u8);

impl IcmpType {
    /// Always true: every stored value is significant in full.
    pub open spec fn spec_wf(&self) -> bool {
        true
    }

    pub open spec fn spec_has_mask(&self) -> bool {
        false
    }

    /// The payload bytes of this field.
    pub open spec fn spec_value_bytes(&self) -> Seq<u8> {
        seq![self.0]
    }

    /// What parsing a standard TLV as this field yields.
    pub open spec fn spec_parse_tlv(b: Seq<u8>) -> Result<FlowMatchField, Error> {
        if b.len() < 4 + 1 {
            Err(Error::Truncated)
        } else {
            Ok(FlowMatchField::IcmpType(IcmpType(b[4])))
        }
    }

    /// Create a new `IcmpType` field.
    pub fn new(value: u8) -> (r: Self)
        ensures
            r == IcmpType(value),
            r.spec_wf(),
    {
        IcmpType(value)
    }

    /// Replace the value.
    pub fn set_value(&mut self, value: u8)
        ensures
            *final(self) == IcmpType(value),
            final(self).spec_wf(),
    {
        self.0 = value;
    }

    /// The payload length in bytes.
    pub fn value_len(&self) -> (r: usize)
        ensures
            r == self.spec_value_bytes().len(),
            r == 1,
    {
        1
    }

    /// This field never carries a mask.
    pub fn has_mask(&self) -> (r: bool)
        ensures
            r == self.spec_has_mask(),
            r == false,
    {
        false
    }

    /// The `oxm_field` code of this field.
    pub fn code() -> (r: u8)
        ensures
            r == consts::ICMP_TYPE,
    {
        consts::ICMP_TYPE
    }

    /// Parse the payload of a checked standard TLV as this field.
    pub(crate) fn parse_tlv(packet: &Packet<'_>) -> (r: Result<FlowMatchField, Error>)
        requires
            packet.bytes().len() >= 4,
        ensures
            r == Self::spec_parse_tlv(packet.bytes()),
            r matches Ok(f) ==> f.spec_wf() && 5 <= f.spec_wire().len() <= packet.bytes().len(),
    {
        let value = packet.value();
        if value.len() < 1 {
            return Err(Error::Truncated);
        }
        let v = wire::read_u8_at(value, 0);
        Ok(FlowMatchField::IcmpType(IcmpType::new(v)))
    }

    /// Write the payload bytes at `buf[off]`.
    pub(crate) fn emit_value_at(&self, buf: &mut [u8], off: usize)
        requires
            off + self.spec_value_bytes().len() <= old(buf)@.len(),
        ensures
            final(buf)@ == wire::splice(old(buf)@, off as int, self.spec_value_bytes()),
    {
        wire::write_u8_at(buf, off, self.0);
    }

    /// Parsing the TLV this field emits, whatever bytes follow it,
    /// yields the field back.
    pub(crate) proof fn lemma_roundtrip(f: Self, rest: Seq<u8>)
        requires
            f.spec_wf(),
        ensures
            FlowMatchField::IcmpType(f).spec_wire().len() >= 5,
            crate::oxm::packet::tlv_class(FlowMatchField::IcmpType(f).spec_wire() + rest) == 0x8000,
            crate::oxm::packet::tlv_field(FlowMatchField::IcmpType(f).spec_wire() + rest) == consts::ICMP_TYPE,
            crate::oxm::packet::tlv_length(FlowMatchField::IcmpType(f).spec_wire() + rest) == f.spec_value_bytes().len(),
            Self::spec_parse_tlv(FlowMatchField::IcmpType(f).spec_wire() + rest) == Ok::<FlowMatchField, Error>(FlowMatchField::IcmpType(f)),
    {
        let vb = f.spec_value_bytes();
        let w = FlowMatchField::IcmpType(f).spec_wire();
        let b = w + rest;
        super::lemma_std_tlv_header(consts::ICMP_TYPE, f.spec_has_mask(), vb);
        assert forall|k: int| 0 <= k < w.len() implies b[k] == super::std_tlv(consts::ICMP_TYPE,
            f.spec_has_mask(), vb)[k] by {}

    }
}

/// ICMP code.  8-bit integer, not maskable.
#[derive(Debug, PartialEq, Eq, Clone)]
pub struct IcmpCode(pub u8);

impl IcmpCode {
    /// Always true: every stored value is significant in full.
    pub open spec fn spec_wf(&self) -> bool {
        true
    }

    pub open spec fn spec_has_mask(&self) -> bool {
        false
    }

    /// The payload bytes of this field.
    pub open spec fn spec_value_bytes(&self) -> Seq<u8> {
        seq![self.0]
    }

    /// What parsing a standard TLV as this field yields.
    pub open spec fn spec_parse_tlv(b: Seq<u8>) -> Result<FlowMatchField, Error> {
        if b.len() < 4 + 1 {
            Err(Error::Truncated)
        } else {
            Ok(FlowMatchField::IcmpCode(IcmpCode(b[4])))
        }
    }

    /// Create a new `IcmpCode` field.
    pub fn new(value: u8) -> (r: Self)
        ensures
            r == IcmpCode(value),
            r.spec_wf(),
    {
        IcmpCode(value)
    }

    /// Replace the value.
    pub fn set_value(&mut self, value: u8)
        ensures
            *final(self) == IcmpCode(value),
            final(self).spec_wf(),
    {
        self.0 = value;
    }

    /// The payload length in bytes.
    pub fn value_len(&self) -> (r: usize)
        ensures
            r == self.spec_value_bytes().len(),
            r == 1,
    {
        1
    }

    /// This field never carries a mask.
    pub fn has_mask(&self) -> (r: bool)
        ensures
            r == self.spec_has_mask(),
            r == false,
    {
        false
    }

    /// The `oxm_field` code of this field.
    pub fn code() -> (r: u8)
        ensures
            r == consts::ICMP_CODE,
    {
        consts::ICMP_CODE
    }

    /// Parse the payload of a checked standard TLV as this field.
    pub(crate) fn parse_tlv(packet: &Packet<'_>) -> (r: Result<FlowMatchField, Error>)
        requires
            packet.bytes().len() >= 4,
        ensures
            r == Self::spec_parse_tlv(packet.bytes()),
            r matches Ok(f) ==> f.spec_wf() && 5 <= f.spec_wire().len() <= packet.bytes().len(),
    {
        let value = packet.value();
        if value.len() < 1 {
            return Err(Error::Truncated);
        }
        let v = wire::read_u8_at(value, 0);
        Ok(FlowMatchField::IcmpCode(IcmpCode::new(v)))
    }

    /// Write the payload bytes at `buf[off]`.
    pub(crate) fn emit_value_at(&self, buf: &mut [u8], off: usize)
        requires
            off + self.spec_value_bytes().len() <= old(buf)@.len(),
        ensures
            final(buf)@ == wire::splice(old(buf)@, off as int, self.spec_value_bytes()),
    {
        wire::write_u8_at(buf, off, self.0);
    }

    /// Parsing the TLV this field emits, whatever bytes follow it,
    /// yields the field back.
    pub(crate) proof fn lemma_roundtrip(f: Self, rest: Seq<u8>)
        requires
            f.spec_wf(),
        ensures
            FlowMatchField::IcmpCode(f).spec_wire().len() >= 5,
            crate::oxm::packet::tlv_class(FlowMatchField::IcmpCode(f).spec_wire() + rest) == 0x8000,
            crate::oxm::packet::tlv_field(FlowMatchField::IcmpCode(f).spec_wire() + rest) == consts::ICMP_CODE,
            crate::oxm::packet::tlv_length(FlowMatchField::IcmpCode(f).spec_wire() + rest) == f.spec_value_bytes().len(),
            Self::spec_parse_tlv(FlowMatchField::IcmpCode(f).spec_wire() + rest) == Ok::<FlowMatchField, Error>(FlowMatchField::IcmpCode(f)),
    {
        let vb = f.spec_value_bytes();
        let w = FlowMatchField::IcmpCode(f).spec_wire();
        let b = w + rest;
        super::lemma_std_tlv_header(consts::ICMP_CODE, f.spec_has_mask(), vb);
        assert forall|k: int| 0 <= k < w.len() implies b[k] == super::std_tlv(consts::ICMP_CODE,
            f.spec_has_mask(), vb)[k] by {}

    }
}

/// ARP opcode.  16-bit integer, not maskable.
#[derive(Debug, PartialEq, Eq, Clone)]
pub struct ArpOpCode(pub u16);

impl ArpOpCode {
    /// Always true: every stored value is significant in full.
    pub open spec fn spec_wf(&self) -> bool {
        true
    }

    pub open spec fn spec_has_mask(&self) -> bool {
        false
    }

    /// The payload bytes of this field.
    pub open spec fn spec_value_bytes(&self) -> Seq<u8> {
        wire::spec_u16_be(self.0)
    }

    /// What parsing a standard TLV as this field yields.
    pub open spec fn spec_parse_tlv(b: Seq<u8>) -> Result<FlowMatchField, Error> {
        if b.len() < 4 + 2 {
            Err(Error::Truncated)
        } else {
            Ok(FlowMatchField::ArpOpCode(ArpOpCode(wire::spec_read_u16(b, 4))))
        }
    }

    /// Create a new `ArpOpCode` field.
    pub fn new(value: u16) -> (r: Self)
        ensures
            r == ArpOpCode(value),
            r.spec_wf(),
    {
        ArpOpCode(value)
    }

    /// Replace the value.
    pub fn set_value(&mut self, value: u16)
        ensures
            *final(self) == ArpOpCode(value),
            final(self).spec_wf(),
    {
        self.0 = value;
    }

    /// The payload length in bytes.
    pub fn value_len(&self) -> (r: usize)
        ensures
            r == self.spec_value_bytes().len(),
            r == 2,
    {
        2
    }

    /// This field never carries a mask.
    pub fn has_mask(&self) -> (r: bool)
        ensures
            r == self.spec_has_mask(),
            r == false,
    {
        false
    }

    /// The `oxm_field` code of this field.
    pub fn code() -> (r: u8)
        ensures
            r == consts::ARP_OP_CODE,
    {
        consts::ARP_OP_CODE
    }

    /// Parse the payload of a checked standard TLV as this field.
    pub(crate) fn parse_tlv(packet: &Packet<'_>) -> (r: Result<FlowMatchField, Error>)
        requires
            packet.bytes().len() >= 4,
        ensures
            r == Self::spec_parse_tlv(packet.bytes()),
            r matches Ok(f) ==> f.spec_wf() && 5 <= f.spec_wire().len() <= packet.bytes().len(),
    {
        let value = packet.value();
        if value.len() < 2 {
            return Err(Error::Truncated);
        }
        let v = wire::read_u16_at(value, 0);
        Ok(FlowMatchField::ArpOpCode(ArpOpCode::new(v)))
    }

    /// Write the payload bytes at `buf[off]`.
    pub(crate) fn emit_value_at(&self, buf: &mut [u8], off: usize)
        requires
            off + self.spec_value_bytes().len() <= old(buf)@.len(),
        ensures
            final(buf)@ == wire::splice(old(buf)@, off as int, self.spec_value_bytes()),
    {
        wire::write_u16_at(buf, off, self.0);
    }

    /// Parsing the TLV this field emits, whatever bytes follow it,
    /// yields the field back.
    pub(crate) proof fn lemma_roundtrip(f: Self, rest: Seq<u8>)
        requires
            f.spec_wf(),
        ensures
            FlowMatchField::ArpOpCode(f).spec_wire().len() >= 5,
            crate::oxm::packet::tlv_class(FlowMatchField::ArpOpCode(f).spec_wire() + rest) == 0x8000,
            crate::oxm::packet::tlv_field(FlowMatchField::ArpOpCode(f).spec_wire() + rest) == consts::ARP_OP_CODE,
            crate::oxm::packet::tlv_length(FlowMatchField::ArpOpCode(f).spec_wire() + rest) == f.spec_value_bytes().len(),
            Self::spec_parse_tlv(FlowMatchField::ArpOpCode(f).spec_wire() + rest) == Ok::<FlowMatchField, Error>(FlowMatchField::ArpOpCode(f)),
    {
        let vb = f.spec_value_bytes();
        let w = FlowMatchField::ArpOpCode(f).spec_wire();
        let b = w + rest;
        super::lemma_std_tlv_header(consts::ARP_OP_CODE, f.spec_has_mask(), vb);
        assert forall|k: int| 0 <= k < w.len() implies b[k] == super::std_tlv(consts::ARP_OP_CODE,
            f.spec_has_mask(), vb)[k] by {}
        wire::lemma_u16_roundtrip(b, 4, f.0);
    }
}

/// ARP source protocol address.  32-bit IPv4 address, arbitrary masks.
#[derive(Debug, PartialEq, Eq, Clone)]
pub struct ArpSpa {
    pub value: [u8; 4],
    pub mask: Option<[u8; 4]>,
}

impl ArpSpa {
    /// Always true: every stored value is significant in full.
    pub open spec fn spec_wf(&self) -> bool {
        true
    }

    pub open spec fn spec_has_mask(&self) -> bool {
        self.mask is Some
    }

    /// The payload bytes: the value, then the mask when present.
    pub open spec fn spec_value_bytes(&self) -> Seq<u8> {
        match self.mask {
            Some(mk) => self.value@ + mk@,
            None => self.value@,
        }
    }

    /// What parsing a standard TLV as this field yields.
    pub open spec fn spec_parse_tlv(b: Seq<u8>) -> Result<FlowMatchField, Error> {
        if crate::oxm::packet::tlv_has_mask(b) {
            if b.len() < 4 + 8 {
                Err(Error::Truncated)
            } else {
                Ok(FlowMatchField::ArpSpa(ArpSpa {
                    value: wire::seq_to_arr::<4>(b.subrange(4, 8)),
                    mask: Some(wire::seq_to_arr::<4>(b.subrange(8, 12))),
                }))
            }
        } else {
            if b.len() < 4 + 4 {
                Err(Error::Truncated)
            } else {
                Ok(FlowMatchField::ArpSpa(ArpSpa {
                    value: wire::seq_to_arr::<4>(b.subrange(4, 8)),
                    mask: None,
                }))
            }
        }
    }

    /// Create a new `ArpSpa` field from a value and an optional mask.
    pub fn new(value: [u8; 4], mask: Option<[u8; 4]>) -> (r: Self)
        ensures
            r == (ArpSpa { value, mask }),
            r.spec_wf(),
    {
        ArpSpa { value, mask }
    }

    /// Replace the value.
    pub fn set_value(&mut self, value: [u8; 4])
        ensures
            final(self).value == value,
            final(self).mask == old(self).mask,
            final(self).spec_wf(),
    {
        self.value = value;
    }

    /// Set the mask.
    pub fn set_mask(&mut self, mask: [u8; 4])
        ensures
            final(self).mask == Some(mask),
            final(self).value == old(self).value,
            final(self).spec_wf(),
    {
        self.mask = Some(mask);
    }

    /// Remove the mask.
    pub fn unset_mask(&mut self)
        ensures
            final(self).mask is None,
            final(self).value == old(self).value,
            final(self).spec_wf(),
    {
        self.mask = None;
    }

    /// The payload length: the base length, doubled when masked.
    pub fn value_len(&self) -> (r: usize)
        ensures
            r == self.spec_value_bytes().len(),
            self.mask is Some ==> r == 8,
            self.mask is None ==> r == 4,
    {
        if self.mask.is_some() { 8 } else { 4 }
    }

    /// Whether the payload carries a mask.
    pub fn has_mask(&self) -> (r: bool)
        ensures
            r == self.spec_has_mask(),
            r == (self.mask is Some),
    {
        self.mask.is_some()
    }

    /// The `oxm_field` code of this field.
    pub fn code() -> (r: u8)
        ensures
            r == consts::ARP_SPA,
    {
        consts::ARP_SPA
    }

    /// Parse the payload of a checked standard TLV as this field.
    pub(crate) fn parse_tlv(packet: &Packet<'_>) -> (r: Result<FlowMatchField, Error>)
        requires
            packet.bytes().len() >= 4,
        ensures
            r == Self::spec_parse_tlv(packet.bytes()),
            r matches Ok(f) ==> f.spec_wf() && 5 <= f.spec_wire().len() <= packet.bytes().len(),
    {
        let value = packet.value();
        if packet.has_mask() {
            if value.len() < 8 {
                return Err(Error::Truncated);
            }
            let v = wire::read_bytes_at::<4>(value, 0);
            let mk = wire::read_bytes_at::<4>(value, 4);
            proof {
                assert(value@.subrange(0, 4) =~= packet.bytes().subrange(4, 8));
                assert(value@.subrange(4, 8) =~= packet.bytes().subrange(8, 12));
                wire::lemma_seq_to_arr(v);
                wire::lemma_seq_to_arr(mk);
            }
            Ok(FlowMatchField::ArpSpa(ArpSpa::new(v, Some(mk))))
        } else {
            if value.len() < 4 {
                return Err(Error::Truncated);
            }
            let v = wire::read_bytes_at::<4>(value, 0);
            proof {
                assert(value@.subrange(0, 4) =~= packet.bytes().subrange(4, 8));
                wire::lemma_seq_to_arr(v);
            }
            Ok(FlowMatchField::ArpSpa(ArpSpa::new(v, None)))
        }
    }

    /// Write the payload bytes at `buf[off]`.
    pub(crate) fn emit_value_at(&self, buf: &mut [u8], off: usize)
        requires
            off + self.spec_value_bytes().len() <= old(buf)@.len(),
        ensures
            final(buf)@ == wire::splice(old(buf)@, off as int, self.spec_value_bytes()),
    {
        wire::write_bytes_at(buf, off, self.value.as_slice());
        match self.mask {
            Some(mk) => {
                let blen = buf.len();
                assert(off + 8 <= blen);
                wire::write_bytes_at(buf, off + 4, mk.as_slice());
                proof {
                    wire::lemma_splice_adjacent(old(buf)@, off as int, self.value@, mk@);
                }
            },
            None => {},
        }
    }

    /// Parsing the TLV this field emits, whatever bytes follow it,
    /// yields the field back.
    pub(crate) proof fn lemma_roundtrip(f: Self, rest: Seq<u8>)
        requires
            f.spec_wf(),
        ensures
            FlowMatchField::ArpSpa(f).spec_wire().len() >= 5,
            crate::oxm::packet::tlv_class(FlowMatchField::ArpSpa(f).spec_wire() + rest) == 0x8000,
            crate::oxm::packet::tlv_field(FlowMatchField::ArpSpa(f).spec_wire() + rest) == consts::ARP_SPA,
            crate::oxm::packet::tlv_length(FlowMatchField::ArpSpa(f).spec_wire() + rest) == f.spec_value_bytes().len(),
            Self::spec_parse_tlv(FlowMatchField::ArpSpa(f).spec_wire() + rest) == Ok::<FlowMatchField, Error>(FlowMatchField::ArpSpa(f)),
    {
        let vb = f.spec_value_bytes();
        let w = FlowMatchField::ArpSpa(f).spec_wire();
        let b = w + rest;
        super::lemma_std_tlv_header(consts::ARP_SPA, f.spec_has_mask(), vb);
        assert forall|k: int| 0 <= k < w.len() implies b[k] == super::std_tlv(consts::ARP_SPA,
            f.spec_has_mask(), vb)[k] by {}
        match f.mask {
            Some(mk) => {
                assert(b.subrange(4, 8) =~= f.value@);
                assert(b.subrange(8, 12) =~= mk@);
                wire::lemma_seq_to_arr(f.value);
                wire::lemma_seq_to_arr(mk);
            },
            None => {
                assert(b.subrange(4, 8) =~= f.value@);
                wire::lemma_seq_to_arr(f.value);
            },
        }
    }
}

/// ARP target protocol address.  32-bit IPv4 address, arbitrary masks.
#[derive(Debug, PartialEq, Eq, Clone)]
pub struct ArpTpa {
    pub value: [u8; 4],
    pub mask: Option<[u8; 4]>,
}

impl ArpTpa {
    /// Always true: every stored value is significant in full.
    pub open spec fn spec_wf(&self) -> bool {
        true
    }

    pub open spec fn spec_has_mask(&self) -> bool {
        self.mask is Some
    }

    /// The payload bytes: the value, then the mask when present.
    pub open spec fn spec_value_bytes(&self) -> Seq<u8> {
        match self.mask {
            Some(mk) => self.value@ + mk@,
            None => self.value@,
        }
    }

    /// What parsing a standard TLV as this field yields.
    pub open spec fn spec_parse_tlv(b: Seq<u8>) -> Result<FlowMatchField, Error> {
        if crate::oxm::packet::tlv_has_mask(b) {
            if b.len() < 4 + 8 {
                Err(Error::Truncated)
            } else {
                Ok(FlowMatchField::ArpTpa(ArpTpa {
                    value: wire::seq_to_arr::<4>(b.subrange(4, 8)),
                    mask: Some(wire::seq_to_arr::<4>(b.subrange(8, 12))),
                }))
            }
        } else {
            if b.len() < 4 + 4 {
                Err(Error::Truncated)
            } else {
                Ok(FlowMatchField::ArpTpa(ArpTpa {
                    value: wire::seq_to_arr::<4>(b.subrange(4, 8)),
                    mask: None,
                }))
            }
        }
    }

    /// Create a new `ArpTpa` field from a value and an optional mask.
    pub fn new(value: [u8; 4], mask: Option<[u8; 4]>) -> (r: Self)
        ensures
            r == (ArpTpa { value, mask }),
            r.spec_wf(),
    {
        ArpTpa { value, mask }
    }

    /// Replace the value.
    pub fn set_value(&mut self, value: [u8; 4])
        ensures
            final(self).value == value,
            final(self).mask == old(self).mask,
            final(self).spec_wf(),
    {
        self.value = value;
    }

    /// Set the mask.
    pub fn set_mask(&mut self, mask: [u8; 4])
        ensures
            final(self).mask == Some(mask),
            final(self).value == old(self).value,
            final(self).spec_wf(),
    {
        self.mask = Some(mask);
    }

    /// Remove the mask.
    pub fn unset_mask(&mut self)
        ensures
            final(self).mask is None,
            final(self).value == old(self).value,
            final(self).spec_wf(),
    {
        self.mask = None;
    }

    /// The payload length: the base length, doubled when masked.
    pub fn value_len(&self) -> (r: usize)
        ensures
            r == self.spec_value_bytes().len(),
            self.mask is Some ==> r == 8,
            self.mask is None ==> r == 4,
    {
        if self.mask.is_some() { 8 } else { 4 }
    }

    /// Whether the payload carries a mask.
    pub fn has_mask(&self) -> (r: bool)
        ensures
            r == self.spec_has_mask(),
            r == (self.mask is Some),
    {
        self.mask.is_some()
    }

    /// The `oxm_field` code of this field.
    pub fn code() -> (r: u8)
        ensures
            r == consts::ARP_TPA,
    {
        consts::ARP_TPA
    }

    /// Parse the payload of a checked standard TLV as this field.
    pub(crate) fn parse_tlv(packet: &Packet<'_>) -> (r: Result<FlowMatchField, Error>)
        requires
            packet.bytes().len() >= 4,
        ensures
            r == Self::spec_parse_tlv(packet.bytes()),
            r matches Ok(f) ==> f.spec_wf() && 5 <= f.spec_wire().len() <= packet.bytes().len(),
    {
        let value = packet.value();
        if packet.has_mask() {
            if value.len() < 8 {
                return Err(Error::Truncated);
            }
            let v = wire::read_bytes_at::<4>(value, 0);
            let mk = wire::read_bytes_at::<4>(value, 4);
            proof {
                assert(value@.subrange(0, 4) =~= packet.bytes().subrange(4, 8));
                assert(value@.subrange(4, 8) =~= packet.bytes().subrange(8, 12));
                wire::lemma_seq_to_arr(v);
                wire::lemma_seq_to_arr(mk);
            }
            Ok(FlowMatchField::ArpTpa(ArpTpa::new(v, Some(mk))))
        } else {
            if value.len() < 4 {
                return Err(Error::Truncated);
            }
            let v = wire::read_bytes_at::<4>(value, 0);
            proof {
                assert(value@.subrange(0, 4) =~= packet.bytes().subrange(4, 8));
                wire::lemma_seq_to_arr(v);
            }
            Ok(FlowMatchField::ArpTpa(ArpTpa::new(v, None)))
        }
    }

    /// Write the payload bytes at `buf[off]`.
    pub(crate) fn emit_value_at(&self, buf: &mut [u8], off: usize)
        requires
            off + self.spec_value_bytes().len() <= old(buf)@.len(),
        ensures
            final(buf)@ == wire::splice(old(buf)@, off as int, self.spec_value_bytes()),
    {
        wire::write_bytes_at(buf, off, self.value.as_slice());
        match self.mask {
            Some(mk) => {
                let blen = buf.len();
                assert(off + 8 <= blen);
                wire::write_bytes_at(buf, off + 4, mk.as_slice());
                proof {
                    wire::lemma_splice_adjacent(old(buf)@, off as int, self.value@, mk@);
                }
            },
            None => {},
        }
    }

    /// Parsing the TLV this field emits, whatever bytes follow it,
    /// yields the field back.
    pub(crate) proof fn lemma_roundtrip(f: Self, rest: Seq<u8>)
        requires
            f.spec_wf(),
        ensures
            FlowMatchField::ArpTpa(f).spec_wire().len() >= 5,
            crate::oxm::packet::tlv_class(FlowMatchField::ArpTpa(f).spec_wire() + rest) == 0x8000,
            crate::oxm::packet::tlv_field(FlowMatchField::ArpTpa(f).spec_wire() + rest) == consts::ARP_TPA,
            crate::oxm::packet::tlv_length(FlowMatchField::ArpTpa(f).spec_wire() + rest) == f.spec_value_bytes().len(),
            Self::spec_parse_tlv(FlowMatchField::ArpTpa(f).spec_wire() + rest) == Ok::<FlowMatchField, Error>(FlowMatchField::ArpTpa(f)),
    {
        let vb = f.spec_value_bytes();
        let w = FlowMatchField::ArpTpa(f).spec_wire();
        let b = w + rest;
        super::lemma_std_tlv_header(consts::ARP_TPA, f.spec_has_mask(), vb);
        assert forall|k: int| 0 <= k < w.len() implies b[k] == super::std_tlv(consts::ARP_TPA,
            f.spec_has_mask(), vb)[k] by {}
        match f.mask {
            Some(mk) => {
                assert(b.subrange(4, 8) =~= f.value@);
                assert(b.subrange(8, 12) =~= mk@);
                wire::lemma_seq_to_arr(f.value);
                wire::lemma_seq_to_arr(mk);
            },
            None => {
                assert(b.subrange(4, 8) =~= f.value@);
                wire::lemma_seq_to_arr(f.value);
            },
        }
    }
}

/// ARP source hardware address.  48-bit MAC address, arbitrary masks.
#[derive(Debug, PartialEq, Eq, Clone)]
pub struct ArpSha {
    pub value: [u8; 6],
    pub mask: Option<[u8; 6]>,
}

impl ArpSha {
    /// Always true: every stored value is significant in full.
    pub open spec fn spec_wf(&self) -> bool {
        true
    }

    pub open spec fn spec_has_mask(&self) -> bool {
        self.mask is Some
    }

    /// The payload bytes: the value, then the mask when present.
    pub open spec fn spec_value_bytes(&self) -> Seq<u8> {
        match self.mask {
            Some(mk) => self.value@ + mk@,
            None => self.value@,
        }
    }

    /// What parsing a standard TLV as this field yields.
    pub open spec fn spec_parse_tlv(b: Seq<u8>) -> Result<FlowMatchField, Error> {
        if crate::oxm::packet::tlv_has_mask(b) {
            if b.len() < 4 + 12 {
                Err(Error::Truncated)
            } else {
                Ok(FlowMatchField::ArpSha(ArpSha {
                    value: wire::seq_to_arr::<6>(b.subrange(4, 10)),
                    mask: Some(wire::seq_to_arr::<6>(b.subrange(10, 16))),
                }))
            }
        } else {
            if b.len() < 4 + 6 {
                Err(Error::Truncated)
            } else {
                Ok(FlowMatchField::ArpSha(ArpSha {
                    value: wire::seq_to_arr::<6>(b.subrange(4, 10)),
                    mask: None,
                }))
            }
        }
    }

    /// Create a new `ArpSha` field from a value and an optional mask.
    pub fn new(value: [u8; 6], mask: Option<[u8; 6]>) -> (r: Self)
        ensures
            r == (ArpSha { value, mask }),
            r.spec_wf(),
    {
        ArpSha { value, mask }
    }

    /// Replace the value.
    pub fn set_value(&mut self, value: [u8; 6])
        ensures
            final(self).value == value,
            final(self).mask == old(self).mask,
            final(self).spec_wf(),
    {
        self.value = value;
    }

    /// Set the mask.
    pub fn set_mask(&mut self, mask: [u8; 6])
        ensures
            final(self).mask == Some(mask),
            final(self).value == old(self).value,
            final(self).spec_wf(),
    {
        self.mask = Some(mask);
    }

    /// Remove the mask.
    pub fn unset_mask(&mut self)
        ensures
            final(self).mask is None,
            final(self).value == old(self).value,
            final(self).spec_wf(),
    {
        self.mask = None;
    }

    /// The payload length: the base length, doubled when masked.
    pub fn value_len(&self) -> (r: usize)
        ensures
            r == self.spec_value_bytes().len(),
            self.mask is Some ==> r == 12,
            self.mask is None ==> r == 6,
    {
        if self.mask.is_some() { 12 } else { 6 }
    }

    /// Whether the payload carries a mask.
    pub fn has_mask(&self) -> (r: bool)
        ensures
            r == self.spec_has_mask(),
            r == (self.mask is Some),
    {
        self.mask.is_some()
    }

    /// The `oxm_field` code of this field.
    pub fn code() -> (r: u8)
        ensures
            r == consts::ARP_SHA,
    {
        consts::ARP_SHA
    }

    /// Parse the payload of a checked standard TLV as this field.
    pub(crate) fn parse_tlv(packet: &Packet<'_>) -> (r: Result<FlowMatchField, Error>)
        requires
            packet.bytes().len() >= 4,
        ensures
            r == Self::spec_parse_tlv(packet.bytes()),
            r matches Ok(f) ==> f.spec_wf() && 5 <= f.spec_wire().len() <= packet.bytes().len(),
    {
        let value = packet.value();
        if packet.has_mask() {
            if value.len() < 12 {
                return Err(Error::Truncated);
            }
            let v = wire::read_bytes_at::<6>(value, 0);
            let mk = wire::read_bytes_at::<6>(value, 6);
            proof {
                assert(value@.subrange(0, 6) =~= packet.bytes().subrange(4, 10));
                assert(value@.subrange(6, 12) =~= packet.bytes().subrange(10, 16));
                wire::lemma_seq_to_arr(v);
                wire::lemma_seq_to_arr(mk);
            }
            Ok(FlowMatchField::ArpSha(ArpSha::new(v, Some(mk))))
        } else {
            if value.len() < 6 {
                return Err(Error::Truncated);
            }
            let v = wire::read_bytes_at::<6>(value, 0);
            proof {
                assert(value@.subrange(0, 6) =~= packet.bytes().subrange(4, 10));
                wire::lemma_seq_to_arr(v);
            }
            Ok(FlowMatchField::ArpSha(ArpSha::new(v, None)))
        }
    }

    /// Write the payload bytes at `buf[off]`.
    pub(crate) fn emit_value_at(&self, buf: &mut [u8], off: usize)
        requires
            off + self.spec_value_bytes().len() <= old(buf)@.len(),
        ensures
            final(buf)@ == wire::splice(old(buf)@, off as int, self.spec_value_bytes()),
    {
        wire::write_bytes_at(buf, off, self.value.as_slice());
        match self.mask {
            Some(mk) => {
                let blen = buf.len();
                assert(off + 12 <= blen);
                wire::write_bytes_at(buf, off + 6, mk.as_slice());
                proof {
                    wire::lemma_splice_adjacent(old(buf)@, off as int, self.value@, mk@);
                }
            },
            None => {},
        }
    }

    /// Parsing the TLV this field emits, whatever bytes follow it,
    /// yields the field back.
    pub(crate) proof fn lemma_roundtrip(f: Self, rest: Seq<u8>)
        requires
            f.spec_wf(),
        ensures
            FlowMatchField::ArpSha(f).spec_wire().len() >= 5,
            crate::oxm::packet::tlv_class(FlowMatchField::ArpSha(f).spec_wire() + rest) == 0x8000,
            crate::oxm::packet::tlv_field(FlowMatchField::ArpSha(f).spec_wire() + rest) == consts::ARP_SHA,
            crate::oxm::packet::tlv_length(FlowMatchField::ArpSha(f).spec_wire() + rest) == f.spec_value_bytes().len(),
            Self::spec_parse_tlv(FlowMatchField::ArpSha(f).spec_wire() + rest) == Ok::<FlowMatchField, Error>(FlowMatchField::ArpSha(f)),
    {
        let vb = f.spec_value_bytes();
        let w = FlowMatchField::ArpSha(f).spec_wire();
        let b = w + rest;
        super::lemma_std_tlv_header(consts::ARP_SHA, f.spec_has_mask(), vb);
        assert forall|k: int| 0 <= k < w.len() implies b[k] == super::std_tlv(consts::ARP_SHA,
            f.spec_has_mask(), vb)[k] by {}
        match f.mask {
            Some(mk) => {
                assert(b.subrange(4, 10) =~= f.value@);
                assert(b.subrange(10, 16) =~= mk@);
                wire::lemma_seq_to_arr(f.value);
                wire::lemma_seq_to_arr(mk);
            },
            None => {
                assert(b.subrange(4, 10) =~= f.value@);
                wire::lemma_seq_to_arr(f.value);
            },
        }
    }
}

/// ARP target hardware address.  48-bit MAC address, arbitrary masks.
#[derive(Debug, PartialEq, Eq, Clone)]
pub struct ArpTha {
    pub value: [u8; 6],
    pub mask: Option<[u8; 6]>,
}

impl ArpTha {
    /// Always true: every stored value is significant in full.
    pub open spec fn spec_wf(&self) -> bool {
        true
    }

    pub open spec fn spec_has_mask(&self) -> bool {
        self.mask is Some
    }

    /// The payload bytes: the value, then the mask when present.
    pub open spec fn spec_value_bytes(&self) -> Seq<u8> {
        match self.mask {
            Some(mk) => self.value@ + mk@,
            None => self.value@,
        }
    }

    /// What parsing a standard TLV as this field yields.
    pub open spec fn spec_parse_tlv(b: Seq<u8>) -> Result<FlowMatchField, Error> {
        if crate::oxm::packet::tlv_has_mask(b) {
            if b.len() < 4 + 12 {
                Err(Error::Truncated)
            } else {
                Ok(FlowMatchField::ArpTha(ArpTha {
                    value: wire::seq_to_arr::<6>(b.subrange(4, 10)),
                    mask: Some(wire::seq_to_arr::<6>(b.subrange(10, 16))),
                }))
            }
        } else {
            if b.len() < 4 + 6 {
                Err(Error::Truncated)
            } else {
                Ok(FlowMatchField::ArpTha(ArpTha {
                    value: wire::seq_to_arr::<6>(b.subrange(4, 10)),
                    mask: None,
                }))
            }
        }
    }

    /// Create a new `ArpTha` field from a value and an optional mask.
    pub fn new(value: [u8; 6], mask: Option<[u8; 6]>) -> (r: Self)
        ensures
            r == (ArpTha { value, mask }),
            r.spec_wf(),
    {
        ArpTha { value, mask }
    }

    /// Replace the value.
    pub fn set_value(&mut self, value: [u8; 6])
        ensures
            final(self).value == value,
            final(self).mask == old(self).mask,
            final(self).spec_wf(),
    {
        self.value = value;
    }

    /// Set the mask.
    pub fn set_mask(&mut self, mask: [u8; 6])
        ensures
            final(self).mask == Some(mask),
            final(self).value == old(self).value,
            final(self).spec_wf(),
    {
        self.mask = Some(mask);
    }

    /// Remove the mask.
    pub fn unset_mask(&mut self)
        ensures
            final(self).mask is None,
            final(self).value == old(self).value,
            final(self).spec_wf(),
    {
        self.mask = None;
    }

    /// The payload length: the base length, doubled when masked.
    pub fn value_len(&self) -> (r: usize)
        ensures
            r == self.spec_value_bytes().len(),
            self.mask is Some ==> r == 12,
            self.mask is None ==> r == 6,
    {
        if self.mask.is_some() { 12 } else { 6 }
    }

    /// Whether the payload carries a mask.
    pub fn has_mask(&self) -> (r: bool)
        ensures
            r == self.spec_has_mask(),
            r == (self.mask is Some),
    {
        self.mask.is_some()
    }

    /// The `oxm_field` code of this field.
    pub fn code() -> (r: u8)
        ensures
            r == consts::ARP_THA,
    {
        consts::ARP_THA
    }

    /// Parse the payload of a checked standard TLV as this field.
    pub(crate) fn parse_tlv(packet: &Packet<'_>) -> (r: Result<FlowMatchField, Error>)
        requires
            packet.bytes().len() >= 4,
        ensures
            r == Self::spec_parse_tlv(packet.bytes()),
            r matches Ok(f) ==> f.spec_wf() && 5 <= f.spec_wire().len() <= packet.bytes().len(),
    {
        let value = packet.value();
        if packet.has_mask() {
            if value.len() < 12 {
                return Err(Error::Truncated);
            }
            let v = wire::read_bytes_at::<6>(value, 0);
            let mk = wire::read_bytes_at::<6>(value, 6);
            proof {
                assert(value@.subrange(0, 6) =~= packet.bytes().subrange(4, 10));
                assert(value@.subrange(6, 12) =~= packet.bytes().subrange(10, 16));
                wire::lemma_seq_to_arr(v);
                wire::lemma_seq_to_arr(mk);
            }
            Ok(FlowMatchField::ArpTha(ArpTha::new(v, Some(mk))))
        } else {
            if value.len() < 6 {
                return Err(Error::Truncated);
            }
            let v = wire::read_bytes_at::<6>(value, 0);
            proof {
                assert(value@.subrange(0, 6) =~= packet.bytes().subrange(4, 10));
                wire::lemma_seq_to_arr(v);
            }
            Ok(FlowMatchField::ArpTha(ArpTha::new(v, None)))
        }
    }

    /// Write the payload bytes at `buf[off]`.
    pub(crate) fn emit_value_at(&self, buf: &mut [u8], off: usize)
        requires
            off + self.spec_value_bytes().len() <= old(buf)@.len(),
        ensures
            final(buf)@ == wire::splice(old(buf)@, off as int, self.spec_value_bytes()),
    {
        wire::write_bytes_at(buf, off, self.value.as_slice());
        match self.mask {
            Some(mk) => {
                let blen = buf.len();
                assert(off + 12 <= blen);
                wire::write_bytes_at(buf, off + 6, mk.as_slice());
                proof {
                    wire::lemma_splice_adjacent(old(buf)@, off as int, self.value@, mk@);
                }
            },
            None => {},
        }
    }

    /// Parsing the TLV this field emits, whatever bytes follow it,
    /// yields the field back.
    pub(crate) proof fn lemma_roundtrip(f: Self, rest: Seq<u8>)
        requires
            f.spec_wf(),
        ensures
            FlowMatchField::ArpTha(f).spec_wire().len() >= 5,
            crate::oxm::packet::tlv_class(FlowMatchField::ArpTha(f).spec_wire() + rest) == 0x8000,
            crate::oxm::packet::tlv_field(FlowMatchField::ArpTha(f).spec_wire() + rest) == consts::ARP_THA,
            crate::oxm::packet::tlv_length(FlowMatchField::ArpTha(f).spec_wire() + rest) == f.spec_value_bytes().len(),
            Self::spec_parse_tlv(FlowMatchField::ArpTha(f).spec_wire() + rest) == Ok::<FlowMatchField, Error>(FlowMatchField::ArpTha(f)),
    {
        let vb = f.spec_value_bytes();
        let w = FlowMatchField::ArpTha(f).spec_wire();
        let b = w + rest;
        super::lemma_std_tlv_header(consts::ARP_THA, f.spec_has_mask(), vb);
        assert forall|k: int| 0 <= k < w.len() implies b[k] == super::std_tlv(consts::ARP_THA,
            f.spec_has_mask(), vb)[k] by {}
        match f.mask {
            Some(mk) => {
                assert(b.subrange(4, 10) =~= f.value@);
                assert(b.subrange(10, 16) =~= mk@);
                wire::lemma_seq_to_arr(f.value);
                wire::lemma_seq_to_arr(mk);
            },
            None => {
                assert(b.subrange(4, 10) =~= f.value@);
                wire::lemma_seq_to_arr(f.value);
            },
        }
    }
}

/// IPv6 source address.  128-bit address, arbitrary masks.
#[derive(Debug, PartialEq, Eq, Clone)]
pub struct Ipv6Source {
    pub value: [u8; 16],
    pub mask: Option<[u8; 16]>,
}

impl Ipv6Source {
    /// Always true: every stored value is significant in full.
    pub open spec fn spec_wf(&self) -> bool {
        true
    }

    pub open spec fn spec_has_mask(&self) -> bool {
        self.mask is Some
    }

    /// The payload bytes: the value, then the mask when present.
    pub open spec fn spec_value_bytes(&self) -> Seq<u8> {
        match self.mask {
            Some(mk) => self.value@ + mk@,
            None => self.value@,
        }
    }

    /// What parsing a standard TLV as this field yields.
    pub open spec fn spec_parse_tlv(b: Seq<u8>) -> Result<FlowMatchField, Error> {
        if crate::oxm::packet::tlv_has_mask(b) {
            if b.len() < 4 + 32 {
                Err(Error::Truncated)
            } else {
                Ok(FlowMatchField::Ipv6Source(Ipv6Source {
                    value: wire::seq_to_arr::<16>(b.subrange(4, 20)),
                    mask: Some(wire::seq_to_arr::<16>(b.subrange(20, 36))),
                }))
            }
        } else {
            if b.len() < 4 + 16 {
                Err(Error::Truncated)
            } else {
                Ok(FlowMatchField::Ipv6Source(Ipv6Source {
                    value: wire::seq_to_arr::<16>(b.subrange(4, 20)),
                    mask: None,
                }))
            }
        }
    }

    /// Create a new `Ipv6Source` field from a value and an optional mask.
    pub fn new(value: [u8; 16], mask: Option<[u8; 16]>) -> (r: Self)
        ensures
            r == (Ipv6Source { value, mask }),
            r.spec_wf(),
    {
        Ipv6Source { value, mask }
    }

    /// Replace the value.
    pub fn set_value(&mut self, value: [u8; 16])
        ensures
            final(self).value == value,
            final(self).mask == old(self).mask,
            final(self).spec_wf(),
    {
        self.value = value;
    }

    /// Set the mask.
    pub fn set_mask(&mut self, mask: [u8; 16])
        ensures
            final(self).mask == Some(mask),
            final(self).value == old(self).value,
            final(self).spec_wf(),
    {
        self.mask = Some(mask);
    }

    /// Remove the mask.
    pub fn unset_mask(&mut self)
        ensures
            final(self).mask is None,
            final(self).value == old(self).value,
            final(self).spec_wf(),
    {
        self.mask = None;
    }

    /// The payload length: the base length, doubled when masked.
    pub fn value_len(&self) -> (r: usize)
        ensures
            r == self.spec_value_bytes().len(),
            self.mask is Some ==> r == 32,
            self.mask is None ==> r == 16,
    {
        if self.mask.is_some() { 32 } else { 16 }
    }

    /// Whether the payload carries a mask.
    pub fn has_mask(&self) -> (r: bool)
        ensures
            r == self.spec_has_mask(),
            r == (self.mask is Some),
    {
        self.mask.is_some()
    }

    /// The `oxm_field` code of this field.
    pub fn code() -> (r: u8)
        ensures
            r == consts::IPV6_SOURCE,
    {
        consts::IPV6_SOURCE
    }

    /// Parse the payload of a checked standard TLV as this field.
    pub(crate) fn parse_tlv(packet: &Packet<'_>) -> (r: Result<FlowMatchField, Error>)
        requires
            packet.bytes().len() >= 4,
        ensures
            r == Self::spec_parse_tlv(packet.bytes()),
            r matches Ok(f) ==> f.spec_wf() && 5 <= f.spec_wire().len() <= packet.bytes().len(),
    {
        let value = packet.value();
        if packet.has_mask() {
            if value.len() < 32 {
                return Err(Error::Truncated);
            }
            let v = wire::read_bytes_at::<16>(value, 0);
            let mk = wire::read_bytes_at::<16>(value, 16);
            proof {
                assert(value@.subrange(0, 16) =~= packet.bytes().subrange(4, 20));
                assert(value@.subrange(16, 32) =~= packet.bytes().subrange(20, 36));
                wire::lemma_seq_to_arr(v);
                wire::lemma_seq_to_arr(mk);
            }
            Ok(FlowMatchField::Ipv6Source(Ipv6Source::new(v, Some(mk))))
        } else {
            if value.len() < 16 {
                return Err(Error::Truncated);
            }
            let v = wire::read_bytes_at::<16>(value, 0);
            proof {
                assert(value@.subrange(0, 16) =~= packet.bytes().subrange(4, 20));
                wire::lemma_seq_to_arr(v);
            }
            Ok(FlowMatchField::Ipv6Source(Ipv6Source::new(v, None)))
        }
    }

    /// Write the payload bytes at `buf[off]`.
    pub(crate) fn emit_value_at(&self, buf: &mut [u8], off: usize)
        requires
            off + self.spec_value_bytes().len() <= old(buf)@.len(),
        ensures
            final(buf)@ == wire::splice(old(buf)@, off as int, self.spec_value_bytes()),
    {
        wire::write_bytes_at(buf, off, self.value.as_slice());
        match self.mask {
            Some(mk) => {
                let blen = buf.len();
                assert(off + 32 <= blen);
                wire::write_bytes_at(buf, off + 16, mk.as_slice());
                proof {
                    wire::lemma_splice_adjacent(old(buf)@, off as int, self.value@, mk@);
                }
            },
            None => {},
        }
    }

    /// Parsing the TLV this field emits, whatever bytes follow it,
    /// yields the field back.
    pub(crate) proof fn lemma_roundtrip(f: Self, rest: Seq<u8>)
        requires
            f.spec_wf(),
        ensures
            FlowMatchField::Ipv6Source(f).spec_wire().len() >= 5,
            crate::oxm::packet::tlv_class(FlowMatchField::Ipv6Source(f).spec_wire() + rest) == 0x8000,
            crate::oxm::packet::tlv_field(FlowMatchField::Ipv6Source(f).spec_wire() + rest) == consts::IPV6_SOURCE,
            crate::oxm::packet::tlv_length(FlowMatchField::Ipv6Source(f).spec_wire() + rest) == f.spec_value_bytes().len(),
            Self::spec_parse_tlv(FlowMatchField::Ipv6Source(f).spec_wire() + rest) == Ok::<FlowMatchField, Error>(FlowMatchField::Ipv6Source(f)),
    {
        let vb = f.spec_value_bytes();
        let w = FlowMatchField::Ipv6Source(f).spec_wire();
        let b = w + rest;
        super::lemma_std_tlv_header(consts::IPV6_SOURCE, f.spec_has_mask(), vb);
        assert forall|k: int| 0 <= k < w.len() implies b[k] == super::std_tlv(consts::IPV6_SOURCE,
            f.spec_has_mask(), vb)[k] by {}
        match f.mask {
            Some(mk) => {
                assert(b.subrange(4, 20) =~= f.value@);
                assert(b.subrange(20, 36) =~= mk@);
                wire::lemma_seq_to_arr(f.value);
                wire::lemma_seq_to_arr(mk);
            },
            None => {
                assert(b.subrange(4, 20) =~= f.value@);
                wire::lemma_seq_to_arr(f.value);
            },
        }
    }
}

/// IPv6 destination address.  128-bit address, arbitrary masks.
#[derive(Debug, PartialEq, Eq, Clone)]
pub struct Ipv6Destination {
    pub value: [u8; 16],
    pub mask: Option<[u8; 16]>,
}

impl Ipv6Destination {
    /// Always true: every stored value is significant in full.
    pub open spec fn spec_wf(&self) -> bool {
        true
    }

    pub open spec fn spec_has_mask(&self) -> bool {
        self.mask is Some
    }

    /// The payload bytes: the value, then the mask when present.
    pub open spec fn spec_value_bytes(&self) -> Seq<u8> {
        match self.mask {
            Some(mk) => self.value@ + mk@,
            None => self.value@,
        }
    }

    /// What parsing a standard TLV as this field yields.
    pub open spec fn spec_parse_tlv(b: Seq<u8>) -> Result<FlowMatchField, Error> {
        if crate::oxm::packet::tlv_has_mask(b) {
            if b.len() < 4 + 32 {
                Err(Error::Truncated)
            } else {
                Ok(FlowMatchField::Ipv6Destination(Ipv6Destination {
                    value: wire::seq_to_arr::<16>(b.subrange(4, 20)),
                    mask: Some(wire::seq_to_arr::<16>(b.subrange(20, 36))),
                }))
            }
        } else {
            if b.len() < 4 + 16 {
                Err(Error::Truncated)
            } else {
                Ok(FlowMatchField::Ipv6Destination(Ipv6Destination {
                    value: wire::seq_to_arr::<16>(b.subrange(4, 20)),
                    mask: None,
                }))
            }
        }
    }

    /// Create a new `Ipv6Destination` field from a value and an optional mask.
    pub fn new(value: [u8; 16], mask: Option<[u8; 16]>) -> (r: Self)
        ensures
            r == (Ipv6Destination { value, mask }),
            r.spec_wf(),
    {
        Ipv6Destination { value, mask }
    }

    /// Replace the value.
    pub fn set_value(&mut self, value: [u8; 16])
        ensures
            final(self).value == value,
            final(self).mask == old(self).mask,
            final(self).spec_wf(),
    {
        self.value = value;
    }

    /// Set the mask.
    pub fn set_mask(&mut self, mask: [u8; 16])
        ensures
            final(self).mask == Some(mask),
            final(self).value == old(self).value,
            final(self).spec_wf(),
    {
        self.mask = Some(mask);
    }

    /// Remove the mask.
    pub fn unset_mask(&mut self)
        ensures
            final(self).mask is None,
            final(self).value == old(self).value,
            final(self).spec_wf(),
    {
        self.mask = None;
    }

    /// The payload length: the base length, doubled when masked.
    pub fn value_len(&self) -> (r: usize)
        ensures
            r == self.spec_value_bytes().len(),
            self.mask is Some ==> r == 32,
            self.mask is None ==> r == 16,
    {
        if self.mask.is_some() { 32 } else { 16 }
    }

    /// Whether the payload carries a mask.
    pub fn has_mask(&self) -> (r: bool)
        ensures
            r == self.spec_has_mask(),
            r == (self.mask is Some),
    {
        self.mask.is_some()
    }

    /// The `oxm_field` code of this field.
    pub fn code() -> (r: u8)
        ensures
            r == consts::IPV6_DESTINATION,
    {
        consts::IPV6_DESTINATION
    }

    /// Parse the payload of a checked standard TLV as this field.
    pub(crate) fn parse_tlv(packet: &Packet<'_>) -> (r: Result<FlowMatchField, Error>)
        requires
            packet.bytes().len() >= 4,
        ensures
            r == Self::spec_parse_tlv(packet.bytes()),
            r matches Ok(f) ==> f.spec_wf() && 5 <= f.spec_wire().len() <= packet.bytes().len(),
    {
        let value = packet.value();
        if packet.has_mask() {
            if value.len() < 32 {
                return Err(Error::Truncated);
            }
            let v = wire::read_bytes_at::<16>(value, 0);
            let mk = wire::read_bytes_at::<16>(value, 16);
            proof {
                assert(value@.subrange(0, 16) =~= packet.bytes().subrange(4, 20));
                assert(value@.subrange(16, 32) =~= packet.bytes().subrange(20, 36));
                wire::lemma_seq_to_arr(v);
                wire::lemma_seq_to_arr(mk);
            }
            Ok(FlowMatchField::Ipv6Destination(Ipv6Destination::new(v, Some(mk))))
        } else {
            if value.len() < 16 {
                return Err(Error::Truncated);
            }
            let v = wire::read_bytes_at::<16>(value, 0);
            proof {
                assert(value@.subrange(0, 16) =~= packet.bytes().subrange(4, 20));
                wire::lemma_seq_to_arr(v);
            }
            Ok(FlowMatchField::Ipv6Destination(Ipv6Destination::new(v, None)))
        }
    }

    /// Write the payload bytes at `buf[off]`.
    pub(crate) fn emit_value_at(&self, buf: &mut [u8], off: usize)
        requires
            off + self.spec_value_bytes().len() <= old(buf)@.len(),
        ensures
            final(buf)@ == wire::splice(old(buf)@, off as int, self.spec_value_bytes()),
    {
        wire::write_bytes_at(buf, off, self.value.as_slice());
        match self.mask {
            Some(mk) => {
                let blen = buf.len();
                assert(off + 32 <= blen);
                wire::write_bytes_at(buf, off + 16, mk.as_slice());
                proof {
                    wire::lemma_splice_adjacent(old(buf)@, off as int, self.value@, mk@);
                }
            },
            None => {},
        }
    }

    /// Parsing the TLV this field emits, whatever bytes follow it,
    /// yields the field back.
    pub(crate) proof fn lemma_roundtrip(f: Self, rest: Seq<u8>)
        requires
            f.spec_wf(),
        ensures
            FlowMatchField::Ipv6Destination(f).spec_wire().len() >= 5,
            crate::oxm::packet::tlv_class(FlowMatchField::Ipv6Destination(f).spec_wire() + rest) == 0x8000,
            crate::oxm::packet::tlv_field(FlowMatchField::Ipv6Destination(f).spec_wire() + rest) == consts::IPV6_DESTINATION,
            crate::oxm::packet::tlv_length(FlowMatchField::Ipv6Destination(f).spec_wire() + rest) == f.spec_value_bytes().len(),
            Self::spec_parse_tlv(FlowMatchField::Ipv6Destination(f).spec_wire() + rest) == Ok::<FlowMatchField, Error>(FlowMatchField::Ipv6Destination(f)),
    {
        let vb = f.spec_value_bytes();
        let w = FlowMatchField::Ipv6Destination(f).spec_wire();
        let b = w + rest;
        super::lemma_std_tlv_header(consts::IPV6_DESTINATION, f.spec_has_mask(), vb);
        assert forall|k: int| 0 <= k < w.len() implies b[k] == super::std_tlv(consts::IPV6_DESTINATION,
            f.spec_has_mask(), vb)[k] by {}
        match f.mask {
            Some(mk) => {
                assert(b.subrange(4, 20) =~= f.value@);
                assert(b.subrange(20, 36) =~= mk@);
                wire::lemma_seq_to_arr(f.value);
                wire::lemma_seq_to_arr(mk);
            },
            None => {
                assert(b.subrange(4, 20) =~= f.value@);
                wire::lemma_seq_to_arr(f.value);
            },
        }
    }
}

/// IPv6 flow label.  32-bit integer of which only the lower 20 bits have meaning; arbitrary masks.
#[derive(Debug, PartialEq, Eq, Clone)]
pub struct Ipv6FlowLabel {
    pub value: u32,
    pub mask: Option<u32>,
}

impl Ipv6FlowLabel {
    /// Stored value and mask never exceed the significant bit width.
    pub open spec fn spec_wf(&self) -> bool {
        self.value & 0x000f_ffff == self.value && (self.mask matches Some(mk) ==> mk & 0x000f_ffff == mk)
    }

    pub open spec fn spec_has_mask(&self) -> bool {
        self.mask is Some
    }

    /// The payload bytes: the value, then the mask when present.
    pub open spec fn spec_value_bytes(&self) -> Seq<u8> {
        match self.mask {
            Some(mk) => wire::spec_u32_be(self.value) + wire::spec_u32_be(mk),
            None => wire::spec_u32_be(self.value),
        }
    }

    /// What parsing a standard TLV as this field yields.
    pub open spec fn spec_parse_tlv(b: Seq<u8>) -> Result<FlowMatchField, Error> {
        if crate::oxm::packet::tlv_has_mask(b) {
            if b.len() < 4 + 8 {
                Err(Error::Truncated)
            } else {
                Ok(FlowMatchField::Ipv6FlowLabel(Ipv6FlowLabel {
                    value: wire::spec_read_u32(b, 4) & 0x000f_ffff,
                    mask: Some(wire::spec_read_u32(b, 8) & 0x000f_ffff),
                }))
            }
        } else {
            if b.len() < 4 + 4 {
                Err(Error::Truncated)
            } else {
                Ok(FlowMatchField::Ipv6FlowLabel(Ipv6FlowLabel { value: wire::spec_read_u32(b, 4) & 0x000f_ffff, mask: None }))
            }
        }
    }

    /// Create a new `Ipv6FlowLabel` field from a value and an optional mask, both truncated to the significant bits.
    pub fn new(value: u32, mask: Option<u32>) -> (r: Self)
        ensures
            r.value == value & 0x000f_ffff,
            mask matches Some(mk) ==> r.mask == Some(mk & 0x000f_ffff),
            mask is None ==> r.mask is None,
            r.spec_wf(),
    {
        proof {
            wire::lemma_u32_and_idem(value, 0x000f_ffff);
            match mask {
                Some(mk) => wire::lemma_u32_and_idem(mk, 0x000f_ffff),
                None => (),
            }
        }
        Ipv6FlowLabel {
            value: value & 0x000f_ffff,
            mask: match mask {
                Some(mk) => Some(mk & 0x000f_ffff),
                None => None,
            },
        }
    }

    /// Replace the value, it is truncated to the significant bits.
    pub fn set_value(&mut self, value: u32)
        ensures
            final(self).value == value & 0x000f_ffff,
            final(self).mask == old(self).mask,
            old(self).spec_wf() ==> final(self).spec_wf(),
    {
        proof { wire::lemma_u32_and_idem(value, 0x000f_ffff); }
        self.value = value & 0x000f_ffff;
    }

    /// Set the mask, truncated to the significant bits.
    pub fn set_mask(&mut self, mask: u32)
        ensures
            final(self).mask == Some(mask & 0x000f_ffff),
            final(self).value == old(self).value,
            old(self).spec_wf() ==> final(self).spec_wf(),
    {
        proof { wire::lemma_u32_and_idem(mask, 0x000f_ffff); }
        self.mask = Some(mask & 0x000f_ffff);
    }

    /// Remove the mask.
    pub fn unset_mask(&mut self)
        ensures
            final(self).mask is None,
            final(self).value == old(self).value,
            old(self).spec_wf() ==> final(self).spec_wf(),
    {
        self.mask = None;
    }

    /// The payload length: the base length, doubled when masked.
    pub fn value_len(&self) -> (r: usize)
        ensures
            r == self.spec_value_bytes().len(),
            self.mask is Some ==> r == 8,
            self.mask is None ==> r == 4,
    {
        if self.mask.is_some() { 8 } else { 4 }
    }

    /// Whether the payload carries a mask.
    pub fn has_mask(&self) -> (r: bool)
        ensures
            r == self.spec_has_mask(),
            r == (self.mask is Some),
    {
        self.mask.is_some()
    }

    /// The `oxm_field` code of this field.
    pub fn code() -> (r: u8)
        ensures
            r == consts::IPV6_FLOW_LABEL,
    {
        consts::IPV6_FLOW_LABEL
    }

    /// Parse the payload of a checked standard TLV as this field.
    pub(crate) fn parse_tlv(packet: &Packet<'_>) -> (r: Result<FlowMatchField, Error>)
        requires
            packet.bytes().len() >= 4,
        ensures
            r == Self::spec_parse_tlv(packet.bytes()),
            r matches Ok(f) ==> f.spec_wf() && 5 <= f.spec_wire().len() <= packet.bytes().len(),
    {
        let value = packet.value();
        if packet.has_mask() {
            if value.len() < 8 {
                return Err(Error::Truncated);
            }
            let v = wire::read_u32_at(value, 0);
            let mk = wire::read_u32_at(value, 4);
            Ok(FlowMatchField::Ipv6FlowLabel(Ipv6FlowLabel::new(v, Some(mk))))
        } else {
            if value.len() < 4 {
                return Err(Error::Truncated);
            }
            let v = wire::read_u32_at(value, 0);
            Ok(FlowMatchField::Ipv6FlowLabel(Ipv6FlowLabel::new(v, None)))
        }
    }

    /// Write the payload bytes at `buf[off]`.
    pub(crate) fn emit_value_at(&self, buf: &mut [u8], off: usize)
        requires
            off + self.spec_value_bytes().len() <= old(buf)@.len(),
        ensures
            final(buf)@ == wire::splice(old(buf)@, off as int, self.spec_value_bytes()),
    {
        wire::write_u32_at(buf, off, self.value);
        match self.mask {
            Some(mk) => {
                let blen = buf.len();
                assert(off + 8 <= blen);
                wire::write_u32_at(buf, off + 4, mk);
                proof {
                    wire::lemma_splice_adjacent(old(buf)@, off as int, wire::spec_u32_be(self.value), wire::spec_u32_be(mk));
                }
            },
            None => {},
        }
    }

    /// Parsing the TLV this field emits, whatever bytes follow it,
    /// yields the field back.
    pub(crate) proof fn lemma_roundtrip(f: Self, rest: Seq<u8>)
        requires
            f.spec_wf(),
        ensures
            FlowMatchField::Ipv6FlowLabel(f).spec_wire().len() >= 5,
            crate::oxm::packet::tlv_class(FlowMatchField::Ipv6FlowLabel(f).spec_wire() + rest) == 0x8000,
            crate::oxm::packet::tlv_field(FlowMatchField::Ipv6FlowLabel(f).spec_wire() + rest) == consts::IPV6_FLOW_LABEL,
            crate::oxm::packet::tlv_length(FlowMatchField::Ipv6FlowLabel(f).spec_wire() + rest) == f.spec_value_bytes().len(),
            Self::spec_parse_tlv(FlowMatchField::Ipv6FlowLabel(f).spec_wire() + rest) == Ok::<FlowMatchField, Error>(FlowMatchField::Ipv6FlowLabel(f)),
    {
        let vb = f.spec_value_bytes();
        let w = FlowMatchField::Ipv6FlowLabel(f).spec_wire();
        let b = w + rest;
        super::lemma_std_tlv_header(consts::IPV6_FLOW_LABEL, f.spec_has_mask(), vb);
        assert forall|k: int| 0 <= k < w.len() implies b[k] == super::std_tlv(consts::IPV6_FLOW_LABEL,
            f.spec_has_mask(), vb)[k] by {}
        wire::lemma_u32_roundtrip(b, 4, f.value);
        match f.mask {
            Some(mk) => wire::lemma_u32_roundtrip(b, 8, mk),
            None => (),
        }
    }
}

/// ICMPv6 type.  8-bit integer, not maskable.
#[derive(Debug, PartialEq, Eq, Clone)]
pub struct Icmpv6Type(pub u8);

impl Icmpv6Type {
    /// Always true: every stored value is significant in full.
    pub open spec fn spec_wf(&self) -> bool {
        true
    }

    pub open spec fn spec_has_mask(&self) -> bool {
        false
    }

    /// The payload bytes of this field.
    pub open spec fn spec_value_bytes(&self) -> Seq<u8> {
        seq![self.0]
    }

    /// What parsing a standard TLV as this field yields.
    pub open spec fn spec_parse_tlv(b: Seq<u8>) -> Result<FlowMatchField, Error> {
        if b.len() < 4 + 1 {
            Err(Error::Truncated)
        } else {
            Ok(FlowMatchField::Icmpv6Type(Icmpv6Type(b[4])))
        }
    }

    /// Create a new `Icmpv6Type` field.
    pub fn new(value: u8) -> (r: Self)
        ensures
            r == Icmpv6Type(value),
            r.spec_wf(),
    {
        Icmpv6Type(value)
    }

    /// Replace the value.
    pub fn set_value(&mut self, value: u8)
        ensures
            *final(self) == Icmpv6Type(value),
            final(self).spec_wf(),
    {
        self.0 = value;
    }

    /// The payload length in bytes.
    pub fn value_len(&self) -> (r: usize)
        ensures
            r == self.spec_value_bytes().len(),
            r == 1,
    {
        1
    }

    /// This field never carries a mask.
    pub fn has_mask(&self) -> (r: bool)
        ensures
            r == self.spec_has_mask(),
            r == false,
    {
        false
    }

    /// The `oxm_field` code of this field.
    pub fn code() -> (r: u8)
        ensures
            r == consts::ICMPV6_TYPE,
    {
        consts::ICMPV6_TYPE
    }

    /// Parse the payload of a checked standard TLV as this field.
    pub(crate) fn parse_tlv(packet: &Packet<'_>) -> (r: Result<FlowMatchField, Error>)
        requires
            packet.bytes().len() >= 4,
        ensures
            r == Self::spec_parse_tlv(packet.bytes()),
            r matches Ok(f) ==> f.spec_wf() && 5 <= f.spec_wire().len() <= packet.bytes().len(),
    {
        let value = packet.value();
        if value.len() < 1 {
            return Err(Error::Truncated);
        }
        let v = wire::read_u8_at(value, 0);
        Ok(FlowMatchField::Icmpv6Type(Icmpv6Type::new(v)))
    }

    /// Write the payload bytes at `buf[off]`.
    pub(crate) fn emit_value_at(&self, buf: &mut [u8], off: usize)
        requires
            off + self.spec_value_bytes().len() <= old(buf)@.len(),
        ensures
            final(buf)@ == wire::splice(old(buf)@, off as int, self.spec_value_bytes()),
    {
        wire::write_u8_at(buf, off, self.0);
    }

    /// Parsing the TLV this field emits, whatever bytes follow it,
    /// yields the field back.
    pub(crate) proof fn lemma_roundtrip(f: Self, rest: Seq<u8>)
        requires
            f.spec_wf(),
        ensures
            FlowMatchField::Icmpv6Type(f).spec_wire().len() >= 5,
            crate::oxm::packet::tlv_class(FlowMatchField::Icmpv6Type(f).spec_wire() + rest) == 0x8000,
            crate::oxm::packet::tlv_field(FlowMatchField::Icmpv6Type(f).spec_wire() + rest) == consts::ICMPV6_TYPE,
            crate::oxm::packet::tlv_length(FlowMatchField::Icmpv6Type(f).spec_wire() + rest) == f.spec_value_bytes().len(),
            Self::spec_parse_tlv(FlowMatchField::Icmpv6Type(f).spec_wire() + rest) == Ok::<FlowMatchField, Error>(FlowMatchField::Icmpv6Type(f)),
    {
        let vb = f.spec_value_bytes();
        let w = FlowMatchField::Icmpv6Type(f).spec_wire();
        let b = w + rest;
        super::lemma_std_tlv_header(consts::ICMPV6_TYPE, f.spec_has_mask(), vb);
        assert forall|k: int| 0 <= k < w.len() implies b[k] == super::std_tlv(consts::ICMPV6_TYPE,
            f.spec_has_mask(), vb)[k] by {}

    }
}

/// ICMPv6 code.  8-bit integer, not maskable.
#[derive(Debug, PartialEq, Eq, Clone)]
pub struct Icmpv6Code(pub u8);

impl Icmpv6Code {
    /// Always true: every stored value is significant in full.
    pub open spec fn spec_wf(&self) -> bool {
        true
    }

    pub open spec fn spec_has_mask(&self) -> bool {
        false
    }

    /// The payload bytes of this field.
    pub open spec fn spec_value_bytes(&self) -> Seq<u8> {
        seq![self.0]
    }

    /// What parsing a standard TLV as this field yields.
    pub open spec fn spec_parse_tlv(b: Seq<u8>) -> Result<FlowMatchField, Error> {
        if b.len() < 4 + 1 {
            Err(Error::Truncated)
        } else {
            Ok(FlowMatchField::Icmpv6Code(Icmpv6Code(b[4])))
        }
    }

    /// Create a new `Icmpv6Code` field.
    pub fn new(value: u8) -> (r: Self)
        ensures
            r == Icmpv6Code(value),
            r.spec_wf(),
    {
        Icmpv6Code(value)
    }

    /// Replace the value.
    pub fn set_value(&mut self, value: u8)
        ensures
            *final(self) == Icmpv6Code(value),
            final(self).spec_wf(),
    {
        self.0 = value;
    }

    /// The payload length in bytes.
    pub fn value_len(&self) -> (r: usize)
        ensures
            r == self.spec_value_bytes().len(),
            r == 1,
    {
        1
    }

    /// This field never carries a mask.
    pub fn has_mask(&self) -> (r: bool)
        ensures
            r == self.spec_has_mask(),
            r == false,
    {
        false
    }

    /// The `oxm_field` code of this field.
    pub fn code() -> (r: u8)
        ensures
            r == consts::ICMPV6_CODE,
    {
        consts::ICMPV6_CODE
    }

    /// Parse the payload of a checked standard TLV as this field.
    pub(crate) fn parse_tlv(packet: &Packet<'_>) -> (r: Result<FlowMatchField, Error>)
        requires
            packet.bytes().len() >= 4,
        ensures
            r == Self::spec_parse_tlv(packet.bytes()),
            r matches Ok(f) ==> f.spec_wf() && 5 <= f.spec_wire().len() <= packet.bytes().len(),
    {
        let value = packet.value();
        if value.len() < 1 {
            return Err(Error::Truncated);
        }
        let v = wire::read_u8_at(value, 0);
        Ok(FlowMatchField::Icmpv6Code(Icmpv6Code::new(v)))
    }

    /// Write the payload bytes at `buf[off]`.
    pub(crate) fn emit_value_at(&self, buf: &mut [u8], off: usize)
        requires
            off + self.spec_value_bytes().len() <= old(buf)@.len(),
        ensures
            final(buf)@ == wire::splice(old(buf)@, off as int, self.spec_value_bytes()),
    {
        wire::write_u8_at(buf, off, self.0);
    }

    /// Parsing the TLV this field emits, whatever bytes follow it,
    /// yields the field back.
    pub(crate) proof fn lemma_roundtrip(f: Self, rest: Seq<u8>)
        requires
            f.spec_wf(),
        ensures
            FlowMatchField::Icmpv6Code(f).spec_wire().len() >= 5,
            crate::oxm::packet::tlv_class(FlowMatchField::Icmpv6Code(f).spec_wire() + rest) == 0x8000,
            crate::oxm::packet::tlv_field(FlowMatchField::Icmpv6Code(f).spec_wire() + rest) == consts::ICMPV6_CODE,
            crate::oxm::packet::tlv_length(FlowMatchField::Icmpv6Code(f).spec_wire() + rest) == f.spec_value_bytes().len(),
            Self::spec_parse_tlv(FlowMatchField::Icmpv6Code(f).spec_wire() + rest) == Ok::<FlowMatchField, Error>(FlowMatchField::Icmpv6Code(f)),
    {
        let vb = f.spec_value_bytes();
        let w = FlowMatchField::Icmpv6Code(f).spec_wire();
        let b = w + rest;
        super::lemma_std_tlv_header(consts::ICMPV6_CODE, f.spec_has_mask(), vb);
        assert forall|k: int| 0 <= k < w.len() implies b[k] == super::std_tlv(consts::ICMPV6_CODE,
            f.spec_has_mask(), vb)[k] by {}

    }
}

/// Target address in an IPv6 Neighbor Discovery message.  128-bit address, not maskable.
#[derive(Debug, PartialEq, Eq, Clone)]
pub struct Ipv6NdTarget(pub [u8; 16]);

impl Ipv6NdTarget {
    /// Always true: every stored value is significant in full.
    pub open spec fn spec_wf(&self) -> bool {
        true
    }

    pub open spec fn spec_has_mask(&self) -> bool {
        false
    }

    /// The payload bytes of this field.
    pub open spec fn spec_value_bytes(&self) -> Seq<u8> {
        self.0@
    }

    /// What parsing a standard TLV as this field yields.
    pub open spec fn spec_parse_tlv(b: Seq<u8>) -> Result<FlowMatchField, Error> {
        if b.len() < 4 + 16 {
            Err(Error::Truncated)
        } else {
            Ok(FlowMatchField::Ipv6NdTarget(Ipv6NdTarget(wire::seq_to_arr::<16>(b.subrange(4, 20)))))
        }
    }

    /// Create a new `Ipv6NdTarget` field.
    pub fn new(value: [u8; 16]) -> (r: Self)
        ensures
            r == Ipv6NdTarget(value),
            r.spec_wf(),
    {
        Ipv6NdTarget(value)
    }

    /// Replace the value.
    pub fn set_value(&mut self, value: [u8; 16])
        ensures
            *final(self) == Ipv6NdTarget(value),
            final(self).spec_wf(),
    {
        self.0 = value;
    }

    /// The payload length in bytes.
    pub fn value_len(&self) -> (r: usize)
        ensures
            r == self.spec_value_bytes().len(),
            r == 16,
    {
        16
    }

    /// This field never carries a mask.
    pub fn has_mask(&self) -> (r: bool)
        ensures
            r == self.spec_has_mask(),
            r == false,
    {
        false
    }

    /// The `oxm_field` code of this field.
    pub fn code() -> (r: u8)
        ensures
            r == consts::IPV6_ND_TARGET,
    {
        consts::IPV6_ND_TARGET
    }

    /// Parse the payload of a checked standard TLV as this field.
    pub(crate) fn parse_tlv(packet: &Packet<'_>) -> (r: Result<FlowMatchField, Error>)
        requires
            packet.bytes().len() >= 4,
        ensures
            r == Self::spec_parse_tlv(packet.bytes()),
            r matches Ok(f) ==> f.spec_wf() && 5 <= f.spec_wire().len() <= packet.bytes().len(),
    {
        let value = packet.value();
        if value.len() < 16 {
            return Err(Error::Truncated);
        }
        let v = wire::read_bytes_at::<16>(value, 0);
        proof {
            assert(value@.subrange(0, 16) =~= packet.bytes().subrange(4, 20));
            wire::lemma_seq_to_arr(v);
        }
        Ok(FlowMatchField::Ipv6NdTarget(Ipv6NdTarget::new(v)))
    }

    /// Write the payload bytes at `buf[off]`.
    pub(crate) fn emit_value_at(&self, buf: &mut [u8], off: usize)
        requires
            off + self.spec_value_bytes().len() <= old(buf)@.len(),
        ensures
            final(buf)@ == wire::splice(old(buf)@, off as int, self.spec_value_bytes()),
    {
        wire::write_bytes_at(buf, off, self.0.as_slice());
    }

    /// Parsing the TLV this field emits, whatever bytes follow it,
    /// yields the field back.
    pub(crate) proof fn lemma_roundtrip(f: Self, rest: Seq<u8>)
        requires
            f.spec_wf(),
        ensures
            FlowMatchField::Ipv6NdTarget(f).spec_wire().len() >= 5,
            crate::oxm::packet::tlv_class(FlowMatchField::Ipv6NdTarget(f).spec_wire() + rest) == 0x8000,
            crate::oxm::packet::tlv_field(FlowMatchField::Ipv6NdTarget(f).spec_wire() + rest) == consts::IPV6_ND_TARGET,
            crate::oxm::packet::tlv_length(FlowMatchField::Ipv6NdTarget(f).spec_wire() + rest) == f.spec_value_bytes().len(),
            Self::spec_parse_tlv(FlowMatchField::Ipv6NdTarget(f).spec_wire() + rest) == Ok::<FlowMatchField, Error>(FlowMatchField::Ipv6NdTarget(f)),
    {
        let vb = f.spec_value_bytes();
        let w = FlowMatchField::Ipv6NdTarget(f).spec_wire();
        let b = w + rest;
        super::lemma_std_tlv_header(consts::IPV6_ND_TARGET, f.spec_has_mask(), vb);
        assert forall|k: int| 0 <= k < w.len() implies b[k] == super::std_tlv(consts::IPV6_ND_TARGET,
            f.spec_has_mask(), vb)[k] by {}
        assert(b.subrange(4, 20) =~= f.0@);
        wire::lemma_seq_to_arr(f.0);
    }
}

/// Source link-layer address option in an IPv6 Neighbor Discovery message.  48-bit MAC address, not maskable.
#[derive(Debug, PartialEq, Eq, Clone)]
pub struct Ipv6NdSll(pub [u8; 6]);

impl Ipv6NdSll {
    /// Always true: every stored value is significant in full.
    pub open spec fn spec_wf(&self) -> bool {
        true
    }

    pub open spec fn spec_has_mask(&self) -> bool {
        false
    }

    /// The payload bytes of this field.
    pub open spec fn spec_value_bytes(&self) -> Seq<u8> {
        self.0@
    }

    /// What parsing a standard TLV as this field yields.
    pub open spec fn spec_parse_tlv(b: Seq<u8>) -> Result<FlowMatchField, Error> {
        if b.len() < 4 + 6 {
            Err(Error::Truncated)
        } else {
            Ok(FlowMatchField::Ipv6NdSll(Ipv6NdSll(wire::seq_to_arr::<6>(b.subrange(4, 10)))))
        }
    }

    /// Create a new `Ipv6NdSll` field.
    pub fn new(value: [u8; 6]) -> (r: Self)
        ensures
            r == Ipv6NdSll(value),
            r.spec_wf(),
    {
        Ipv6NdSll(value)
    }

    /// Replace the value.
    pub fn set_value(&mut self, value: [u8; 6])
        ensures
            *final(self) == Ipv6NdSll(value),
            final(self).spec_wf(),
    {
        self.0 = value;
    }

    /// The payload length in bytes.
    pub fn value_len(&self) -> (r: usize)
        ensures
            r == self.spec_value_bytes().len(),
            r == 6,
    {
        6
    }

    /// This field never carries a mask.
    pub fn has_mask(&self) -> (r: bool)
        ensures
            r == self.spec_has_mask(),
            r == false,
    {
        false
    }

    /// The `oxm_field` code of this field.
    pub fn code() -> (r: u8)
        ensures
            r == consts::IPV6_ND_SLL,
    {
        consts::IPV6_ND_SLL
    }

    /// Parse the payload of a checked standard TLV as this field.
    pub(crate) fn parse_tlv(packet: &Packet<'_>) -> (r: Result<FlowMatchField, Error>)
        requires
            packet.bytes().len() >= 4,
        ensures
            r == Self::spec_parse_tlv(packet.bytes()),
            r matches Ok(f) ==> f.spec_wf() && 5 <= f.spec_wire().len() <= packet.bytes().len(),
    {
        let value = packet.value();
        if value.len() < 6 {
            return Err(Error::Truncated);
        }
        let v = wire::read_bytes_at::<6>(value, 0);
        proof {
            assert(value@.subrange(0, 6) =~= packet.bytes().subrange(4, 10));
            wire::lemma_seq_to_arr(v);
        }
        Ok(FlowMatchField::Ipv6NdSll(Ipv6NdSll::new(v)))
    }

    /// Write the payload bytes at `buf[off]`.
    pub(crate) fn emit_value_at(&self, buf: &mut [u8], off: usize)
        requires
            off + self.spec_value_bytes().len() <= old(buf)@.len(),
        ensures
            final(buf)@ == wire::splice(old(buf)@, off as int, self.spec_value_bytes()),
    {
        wire::write_bytes_at(buf, off, self.0.as_slice());
    }

    /// Parsing the TLV this field emits, whatever bytes follow it,
    /// yields the field back.
    pub(crate) proof fn lemma_roundtrip(f: Self, rest: Seq<u8>)
        requires
            f.spec_wf(),
        ensures
            FlowMatchField::Ipv6NdSll(f).spec_wire().len() >= 5,
            crate::oxm::packet::tlv_class(FlowMatchField::Ipv6NdSll(f).spec_wire() + rest) == 0x8000,
            crate::oxm::packet::tlv_field(FlowMatchField::Ipv6NdSll(f).spec_wire() + rest) == consts::IPV6_ND_SLL,
            crate::oxm::packet::tlv_length(FlowMatchField::Ipv6NdSll(f).spec_wire() + rest) == f.spec_value_bytes().len(),
            Self::spec_parse_tlv(FlowMatchField::Ipv6NdSll(f).spec_wire() + rest) == Ok::<FlowMatchField, Error>(FlowMatchField::Ipv6NdSll(f)),
    {
        let vb = f.spec_value_bytes();
        let w = FlowMatchField::Ipv6NdSll(f).spec_wire();
        let b = w + rest;
        super::lemma_std_tlv_header(consts::IPV6_ND_SLL, f.spec_has_mask(), vb);
        assert forall|k: int| 0 <= k < w.len() implies b[k] == super::std_tlv(consts::IPV6_ND_SLL,
            f.spec_has_mask(), vb)[k] by {}
        assert(b.subrange(4, 10) =~= f.0@);
        wire::lemma_seq_to_arr(f.0);
    }
}

/// Target link-layer address option in an IPv6 Neighbor Discovery message.  48-bit MAC address, not maskable.
#[derive(Debug, PartialEq, Eq, Clone)]
pub struct Ipv6NdTll(pub [u8; 6]);

impl Ipv6NdTll {
    /// Always true: every stored value is significant in full.
    pub open spec fn spec_wf(&self) -> bool {
        true
    }

    pub open spec fn spec_has_mask(&self) -> bool {
        false
    }

    /// The payload bytes of this field.
    pub open spec fn spec_value_bytes(&self) -> Seq<u8> {
        self.0@
    }

    /// What parsing a standard TLV as this field yields.
    pub open spec fn spec_parse_tlv(b: Seq<u8>) -> Result<FlowMatchField, Error> {
        if b.len() < 4 + 6 {
            Err(Error::Truncated)
        } else {
            Ok(FlowMatchField::Ipv6NdTll(Ipv6NdTll(wire::seq_to_arr::<6>(b.subrange(4, 10)))))
        }
    }

    /// Create a new `Ipv6NdTll` field.
    pub fn new(value: [u8; 6]) -> (r: Self)
        ensures
            r == Ipv6NdTll(value),
            r.spec_wf(),
    {
        Ipv6NdTll(value)
    }

    /// Replace the value.
    pub fn set_value(&mut self, value: [u8; 6])
        ensures
            *final(self) == Ipv6NdTll(value),
            final(self).spec_wf(),
    {
        self.0 = value;
    }

    /// The payload length in bytes.
    pub fn value_len(&self) -> (r: usize)
        ensures
            r == self.spec_value_bytes().len(),
            r == 6,
    {
        6
    }

    /// This field never carries a mask.
    pub fn has_mask(&self) -> (r: bool)
        ensures
            r == self.spec_has_mask(),
            r == false,
    {
        false
    }

    /// The `oxm_field` code of this field.
    pub fn code() -> (r: u8)
        ensures
            r == consts::IPV6_ND_TLL,
    {
        consts::IPV6_ND_TLL
    }

    /// Parse the payload of a checked standard TLV as this field.
    pub(crate) fn parse_tlv(packet: &Packet<'_>) -> (r: Result<FlowMatchField, Error>)
        requires
            packet.bytes().len() >= 4,
        ensures
            r == Self::spec_parse_tlv(packet.bytes()),
            r matches Ok(f) ==> f.spec_wf() && 5 <= f.spec_wire().len() <= packet.bytes().len(),
    {
        let value = packet.value();
        if value.len() < 6 {
            return Err(Error::Truncated);
        }
        let v = wire::read_bytes_at::<6>(value, 0);
        proof {
            assert(value@.subrange(0, 6) =~= packet.bytes().subrange(4, 10));
            wire::lemma_seq_to_arr(v);
        }
        Ok(FlowMatchField::Ipv6NdTll(Ipv6NdTll::new(v)))
    }

    /// Write the payload bytes at `buf[off]`.
    pub(crate) fn emit_value_at(&self, buf: &mut [u8], off: usize)
        requires
            off + self.spec_value_bytes().len() <= old(buf)@.len(),
        ensures
            final(buf)@ == wire::splice(old(buf)@, off as int, self.spec_value_bytes()),
    {
        wire::write_bytes_at(buf, off, self.0.as_slice());
    }

    /// Parsing the TLV this field emits, whatever bytes follow it,
    /// yields the field back.
    pub(crate) proof fn lemma_roundtrip(f: Self, rest: Seq<u8>)
        requires
            f.spec_wf(),
        ensures
            FlowMatchField::Ipv6NdTll(f).spec_wire().len() >= 5,
            crate::oxm::packet::tlv_class(FlowMatchField::Ipv6NdTll(f).spec_wire() + rest) == 0x8000,
            crate::oxm::packet::tlv_field(FlowMatchField::Ipv6NdTll(f).spec_wire() + rest) == consts::IPV6_ND_TLL,
            crate::oxm::packet::tlv_length(FlowMatchField::Ipv6NdTll(f).spec_wire() + rest) == f.spec_value_bytes().len(),
            Self::spec_parse_tlv(FlowMatchField::Ipv6NdTll(f).spec_wire() + rest) == Ok::<FlowMatchField, Error>(FlowMatchField::Ipv6NdTll(f)),
    {
        let vb = f.spec_value_bytes();
        let w = FlowMatchField::Ipv6NdTll(f).spec_wire();
        let b = w + rest;
        super::lemma_std_tlv_header(consts::IPV6_ND_TLL, f.spec_has_mask(), vb);
        assert forall|k: int| 0 <= k < w.len() implies b[k] == super::std_tlv(consts::IPV6_ND_TLL,
            f.spec_has_mask(), vb)[k] by {}
        assert(b.subrange(4, 10) =~= f.0@);
        wire::lemma_seq_to_arr(f.0);
    }
}

/// Label in the first MPLS shim header.  32-bit integer of which only the lower 20 bits have meaning; not maskable.
#[derive(Debug, PartialEq, Eq, Clone)]
pub struct MplsLabel(pub u32);

impl MplsLabel {
    /// The stored value never exceeds the significant bit width.
    pub open spec fn spec_wf(&self) -> bool {
        self.0 & 0x000f_ffff == self.0
    }

    pub open spec fn spec_has_mask(&self) -> bool {
        false
    }

    /// The payload bytes of this field.
    pub open spec fn spec_value_bytes(&self) -> Seq<u8> {
        wire::spec_u32_be(self.0)
    }

    /// What parsing a standard TLV as this field yields.
    pub open spec fn spec_parse_tlv(b: Seq<u8>) -> Result<FlowMatchField, Error> {
        if b.len() < 4 + 4 {
            Err(Error::Truncated)
        } else {
            Ok(FlowMatchField::MplsLabel(MplsLabel(wire::spec_read_u32(b, 4) & 0x000f_ffff)))
        }
    }

    /// Create a new `MplsLabel` field, truncated to the significant bits.
    pub fn new(value: u32) -> (r: Self)
        ensures
            r == MplsLabel(value & 0x000f_ffff),
            r.spec_wf(),
    {
        proof { wire::lemma_u32_and_idem(value, 0x000f_ffff); }
        MplsLabel(value & 0x000f_ffff)
    }

    /// Replace the value, truncated to the significant bits.
    pub fn set_value(&mut self, value: u32)
        ensures
            *final(self) == MplsLabel(value & 0x000f_ffff),
            final(self).spec_wf(),
    {
        proof { wire::lemma_u32_and_idem(value, 0x000f_ffff); }
        self.0 = value & 0x000f_ffff;
    }

    /// The payload length in bytes.
    pub fn value_len(&self) -> (r: usize)
        ensures
            r == self.spec_value_bytes().len(),
            r == 4,
    {
        4
    }

    /// This field never carries a mask.
    pub fn has_mask(&self) -> (r: bool)
        ensures
            r == self.spec_has_mask(),
            r == false,
    {
        false
    }

    /// The `oxm_field` code of this field.
    pub fn code() -> (r: u8)
        ensures
            r == consts::MPLS_LABEL,
    {
        consts::MPLS_LABEL
    }

    /// Parse the payload of a checked standard TLV as this field.
    pub(crate) fn parse_tlv(packet: &Packet<'_>) -> (r: Result<FlowMatchField, Error>)
        requires
            packet.bytes().len() >= 4,
        ensures
            r == Self::spec_parse_tlv(packet.bytes()),
            r matches Ok(f) ==> f.spec_wf() && 5 <= f.spec_wire().len() <= packet.bytes().len(),
    {
        let value = packet.value();
        if value.len() < 4 {
            return Err(Error::Truncated);
        }
        let v = wire::read_u32_at(value, 0);
        Ok(FlowMatchField::MplsLabel(MplsLabel::new(v)))
    }

    /// Write the payload bytes at `buf[off]`.
    pub(crate) fn emit_value_at(&self, buf: &mut [u8], off: usize)
        requires
            off + self.spec_value_bytes().len() <= old(buf)@.len(),
        ensures
            final(buf)@ == wire::splice(old(buf)@, off as int, self.spec_value_bytes()),
    {
        wire::write_u32_at(buf, off, self.0);
    }

    /// Parsing the TLV this field emits, whatever bytes follow it,
    /// yields the field back.
    pub(crate) proof fn lemma_roundtrip(f: Self, rest: Seq<u8>)
        requires
            f.spec_wf(),
        ensures
            FlowMatchField::MplsLabel(f).spec_wire().len() >= 5,
            crate::oxm::packet::tlv_class(FlowMatchField::MplsLabel(f).spec_wire() + rest) == 0x8000,
            crate::oxm::packet::tlv_field(FlowMatchField::MplsLabel(f).spec_wire() + rest) == consts::MPLS_LABEL,
            crate::oxm::packet::tlv_length(FlowMatchField::MplsLabel(f).spec_wire() + rest) == f.spec_value_bytes().len(),
            Self::spec_parse_tlv(FlowMatchField::MplsLabel(f).spec_wire() + rest) == Ok::<FlowMatchField, Error>(FlowMatchField::MplsLabel(f)),
    {
        let vb = f.spec_value_bytes();
        let w = FlowMatchField::MplsLabel(f).spec_wire();
        let b = w + rest;
        super::lemma_std_tlv_header(consts::MPLS_LABEL, f.spec_has_mask(), vb);
        assert forall|k: int| 0 <= k < w.len() implies b[k] == super::std_tlv(consts::MPLS_LABEL,
            f.spec_has_mask(), vb)[k] by {}
        wire::lemma_u32_roundtrip(b, 4, f.0);
    }
}

/// TC in the first MPLS shim header.  8-bit integer of which only the lower 3 bits have meaning; not maskable.
#[derive(Debug, PartialEq, Eq, Clone)]
pub struct MplsTc(pub u8);

impl MplsTc {
    /// The stored value never exceeds the significant bit width.
    pub open spec fn spec_wf(&self) -> bool {
        self.0 & 0x07 == self.0
    }

    pub open spec fn spec_has_mask(&self) -> bool {
        false
    }

    /// The payload bytes of this field.
    pub open spec fn spec_value_bytes(&self) -> Seq<u8> {
        seq![self.0]
    }

    /// What parsing a standard TLV as this field yields.
    pub open spec fn spec_parse_tlv(b: Seq<u8>) -> Result<FlowMatchField, Error> {
        if b.len() < 4 + 1 {
            Err(Error::Truncated)
        } else {
            Ok(FlowMatchField::MplsTc(MplsTc(b[4] & 0x07)))
        }
    }

    /// Create a new `MplsTc` field, truncated to the significant bits.
    pub fn new(value: u8) -> (r: Self)
        ensures
            r == MplsTc(value & 0x07),
            r.spec_wf(),
    {
        proof { wire::lemma_u8_and_idem(value, 0x07); }
        MplsTc(value & 0x07)
    }

    /// Replace the value, truncated to the significant bits.
    pub fn set_value(&mut self, value: u8)
        ensures
            *final(self) == MplsTc(value & 0x07),
            final(self).spec_wf(),
    {
        proof { wire::lemma_u8_and_idem(value, 0x07); }
        self.0 = value & 0x07;
    }

    /// The payload length in bytes.
    pub fn value_len(&self) -> (r: usize)
        ensures
            r == self.spec_value_bytes().len(),
            r == 1,
    {
        1
    }

    /// This field never carries a mask.
    pub fn has_mask(&self) -> (r: bool)
        ensures
            r == self.spec_has_mask(),
            r == false,
    {
        false
    }

    /// The `oxm_field` code of this field.
    pub fn code() -> (r: u8)
        ensures
            r == consts::MPLS_TC,
    {
        consts::MPLS_TC
    }

    /// Parse the payload of a checked standard TLV as this field.
    pub(crate) fn parse_tlv(packet: &Packet<'_>) -> (r: Result<FlowMatchField, Error>)
        requires
            packet.bytes().len() >= 4,
        ensures
            r == Self::spec_parse_tlv(packet.bytes()),
            r matches Ok(f) ==> f.spec_wf() && 5 <= f.spec_wire().len() <= packet.bytes().len(),
    {
        let value = packet.value();
        if value.len() < 1 {
            return Err(Error::Truncated);
        }
        let v = wire::read_u8_at(value, 0);
        Ok(FlowMatchField::MplsTc(MplsTc::new(v)))
    }

    /// Write the payload bytes at `buf[off]`.
    pub(crate) fn emit_value_at(&self, buf: &mut [u8], off: usize)
        requires
            off + self.spec_value_bytes().len() <= old(buf)@.len(),
        ensures
            final(buf)@ == wire::splice(old(buf)@, off as int, self.spec_value_bytes()),
    {
        wire::write_u8_at(buf, off, self.0);
    }

    /// Parsing the TLV this field emits, whatever bytes follow it,
    /// yields the field back.
    pub(crate) proof fn lemma_roundtrip(f: Self, rest: Seq<u8>)
        requires
            f.spec_wf(),
        ensures
            FlowMatchField::MplsTc(f).spec_wire().len() >= 5,
            crate::oxm::packet::tlv_class(FlowMatchField::MplsTc(f).spec_wire() + rest) == 0x8000,
            crate::oxm::packet::tlv_field(FlowMatchField::MplsTc(f).spec_wire() + rest) == consts::MPLS_TC,
            crate::oxm::packet::tlv_length(FlowMatchField::MplsTc(f).spec_wire() + rest) == f.spec_value_bytes().len(),
            Self::spec_parse_tlv(FlowMatchField::MplsTc(f).spec_wire() + rest) == Ok::<FlowMatchField, Error>(FlowMatchField::MplsTc(f)),
    {
        let vb = f.spec_value_bytes();
        let w = FlowMatchField::MplsTc(f).spec_wire();
        let b = w + rest;
        super::lemma_std_tlv_header(consts::MPLS_TC, f.spec_has_mask(), vb);
        assert forall|k: int| 0 <= k < w.len() implies b[k] == super::std_tlv(consts::MPLS_TC,
            f.spec_has_mask(), vb)[k] by {}

    }
}

/// BoS bit in the first MPLS shim header.  8-bit integer of which only the lowest bit has meaning; not maskable.
#[derive(Debug, PartialEq, Eq, Clone)]
pub struct MplsBos(pub u8);

impl MplsBos {
    /// The stored value never exceeds the significant bit width.
    pub open spec fn spec_wf(&self) -> bool {
        self.0 & 0x01 == self.0
    }

    pub open spec fn spec_has_mask(&self) -> bool {
        false
    }

    /// The payload bytes of this field.
    pub open spec fn spec_value_bytes(&self) -> Seq<u8> {
        seq![self.0]
    }

    /// What parsing a standard TLV as this field yields.
    pub open spec fn spec_parse_tlv(b: Seq<u8>) -> Result<FlowMatchField, Error> {
        if b.len() < 4 + 1 {
            Err(Error::Truncated)
        } else {
            Ok(FlowMatchField::MplsBos(MplsBos(b[4] & 0x01)))
        }
    }

    /// Create a new `MplsBos` field, truncated to the significant bits.
    pub fn new(value: u8) -> (r: Self)
        ensures
            r == MplsBos(value & 0x01),
            r.spec_wf(),
    {
        proof { wire::lemma_u8_and_idem(value, 0x01); }
        MplsBos(value & 0x01)
    }

    /// Replace the value, truncated to the significant bits.
    pub fn set_value(&mut self, value: u8)
        ensures
            *final(self) == MplsBos(value & 0x01),
            final(self).spec_wf(),
    {
        proof { wire::lemma_u8_and_idem(value, 0x01); }
        self.0 = value & 0x01;
    }

    /// The payload length in bytes.
    pub fn value_len(&self) -> (r: usize)
        ensures
            r == self.spec_value_bytes().len(),
            r == 1,
    {
        1
    }

    /// This field never carries a mask.
    pub fn has_mask(&self) -> (r: bool)
        ensures
            r == self.spec_has_mask(),
            r == false,
    {
        false
    }

    /// The `oxm_field` code of this field.
    pub fn code() -> (r: u8)
        ensures
            r == consts::MPLS_BOS,
    {
        consts::MPLS_BOS
    }

    /// Parse the payload of a checked standard TLV as this field.
    pub(crate) fn parse_tlv(packet: &Packet<'_>) -> (r: Result<FlowMatchField, Error>)
        requires
            packet.bytes().len() >= 4,
        ensures
            r == Self::spec_parse_tlv(packet.bytes()),
            r matches Ok(f) ==> f.spec_wf() && 5 <= f.spec_wire().len() <= packet.bytes().len(),
    {
        let value = packet.value();
        if value.len() < 1 {
            return Err(Error::Truncated);
        }
        let v = wire::read_u8_at(value, 0);
        Ok(FlowMatchField::MplsBos(MplsBos::new(v)))
    }

    /// Write the payload bytes at `buf[off]`.
    pub(crate) fn emit_value_at(&self, buf: &mut [u8], off: usize)
        requires
            off + self.spec_value_bytes().len() <= old(buf)@.len(),
        ensures
            final(buf)@ == wire::splice(old(buf)@, off as int, self.spec_value_bytes()),
    {
        wire::write_u8_at(buf, off, self.0);
    }

    /// Parsing the TLV this field emits, whatever bytes follow it,
    /// yields the field back.
    pub(crate) proof fn lemma_roundtrip(f: Self, rest: Seq<u8>)
        requires
            f.spec_wf(),
        ensures
            FlowMatchField::MplsBos(f).spec_wire().len() >= 5,
            crate::oxm::packet::tlv_class(FlowMatchField::MplsBos(f).spec_wire() + rest) == 0x8000,
            crate::oxm::packet::tlv_field(FlowMatchField::MplsBos(f).spec_wire() + rest) == consts::MPLS_BOS,
            crate::oxm::packet::tlv_length(FlowMatchField::MplsBos(f).spec_wire() + rest) == f.spec_value_bytes().len(),
            Self::spec_parse_tlv(FlowMatchField::MplsBos(f).spec_wire() + rest) == Ok::<FlowMatchField, Error>(FlowMatchField::MplsBos(f)),
    {
        let vb = f.spec_value_bytes();
        let w = FlowMatchField::MplsBos(f).spec_wire();
        let b = w + rest;
        super::lemma_std_tlv_header(consts::MPLS_BOS, f.spec_has_mask(), vb);
        assert forall|k: int| 0 <= k < w.len() implies b[k] == super::std_tlv(consts::MPLS_BOS,
            f.spec_has_mask(), vb)[k] by {}

    }
}

/// IEEE 802.1ah I-SID from the outermost service tag.  24-bit integer packed big-endian into 3 bytes; arbitrary masks.
#[derive(Debug, PartialEq, Eq, Clone)]
pub struct PbbIsid {
    pub value: u32,
    pub mask: Option<u32>,
}

impl PbbIsid {
    /// Stored value and mask never exceed the significant bit width.
    pub open spec fn spec_wf(&self) -> bool {
        self.value & 0x00ff_ffff == self.value && (self.mask matches Some(mk) ==> mk & 0x00ff_ffff == mk)
    }

    pub open spec fn spec_has_mask(&self) -> bool {
        self.mask is Some
    }

    /// The payload bytes: the value, then the mask when present.
    pub open spec fn spec_value_bytes(&self) -> Seq<u8> {
        match self.mask {
            Some(mk) => wire::spec_u24_be(self.value) + wire::spec_u24_be(mk),
            None => wire::spec_u24_be(self.value),
        }
    }

    /// What parsing a standard TLV as this field yields.
    pub open spec fn spec_parse_tlv(b: Seq<u8>) -> Result<FlowMatchField, Error> {
        if crate::oxm::packet::tlv_has_mask(b) {
            if b.len() < 4 + 6 {
                Err(Error::Truncated)
            } else {
                Ok(FlowMatchField::PbbIsid(PbbIsid {
                    value: wire::spec_read_u24(b, 4) & 0x00ff_ffff,
                    mask: Some(wire::spec_read_u24(b, 7) & 0x00ff_ffff),
                }))
            }
        } else {
            if b.len() < 4 + 3 {
                Err(Error::Truncated)
            } else {
                Ok(FlowMatchField::PbbIsid(PbbIsid { value: wire::spec_read_u24(b, 4) & 0x00ff_ffff, mask: None }))
            }
        }
    }

    /// Create a new `PbbIsid` field from a value and an optional mask, both truncated to the significant bits.
    pub fn new(value: u32, mask: Option<u32>) -> (r: Self)
        ensures
            r.value == value & 0x00ff_ffff,
            mask matches Some(mk) ==> r.mask == Some(mk & 0x00ff_ffff),
            mask is None ==> r.mask is None,
            r.spec_wf(),
    {
        proof {
            wire::lemma_u32_and_idem(value, 0x00ff_ffff);
            match mask {
                Some(mk) => wire::lemma_u32_and_idem(mk, 0x00ff_ffff),
                None => (),
            }
        }
        PbbIsid {
            value: value & 0x00ff_ffff,
            mask: match mask {
                Some(mk) => Some(mk & 0x00ff_ffff),
                None => None,
            },
        }
    }

    /// Replace the value, it is truncated to the significant bits.
    pub fn set_value(&mut self, value: u32)
        ensures
            final(self).value == value & 0x00ff_ffff,
            final(self).mask == old(self).mask,
            old(self).spec_wf() ==> final(self).spec_wf(),
    {
        proof { wire::lemma_u32_and_idem(value, 0x00ff_ffff); }
        self.value = value & 0x00ff_ffff;
    }

    /// Set the mask, truncated to the significant bits.
    pub fn set_mask(&mut self, mask: u32)
        ensures
            final(self).mask == Some(mask & 0x00ff_ffff),
            final(self).value == old(self).value,
            old(self).spec_wf() ==> final(self).spec_wf(),
    {
        proof { wire::lemma_u32_and_idem(mask, 0x00ff_ffff); }
        self.mask = Some(mask & 0x00ff_ffff);
    }

    /// Remove the mask.
    pub fn unset_mask(&mut self)
        ensures
            final(self).mask is None,
            final(self).value == old(self).value,
            old(self).spec_wf() ==> final(self).spec_wf(),
    {
        self.mask = None;
    }

    /// The payload length: the base length, doubled when masked.
    pub fn value_len(&self) -> (r: usize)
        ensures
            r == self.spec_value_bytes().len(),
            self.mask is Some ==> r == 6,
            self.mask is None ==> r == 3,
    {
        if self.mask.is_some() { 6 } else { 3 }
    }

    /// Whether the payload carries a mask.
    pub fn has_mask(&self) -> (r: bool)
        ensures
            r == self.spec_has_mask(),
            r == (self.mask is Some),
    {
        self.mask.is_some()
    }

    /// The `oxm_field` code of this field.
    pub fn code() -> (r: u8)
        ensures
            r == consts::PBB_ISID,
    {
        consts::PBB_ISID
    }

    /// Parse the payload of a checked standard TLV as this field.
    pub(crate) fn parse_tlv(packet: &Packet<'_>) -> (r: Result<FlowMatchField, Error>)
        requires
            packet.bytes().len() >= 4,
        ensures
            r == Self::spec_parse_tlv(packet.bytes()),
            r matches Ok(f) ==> f.spec_wf() && 5 <= f.spec_wire().len() <= packet.bytes().len(),
    {
        let value = packet.value();
        if packet.has_mask() {
            if value.len() < 6 {
                return Err(Error::Truncated);
            }
            let v = wire::read_u24_at(value, 0);
            let mk = wire::read_u24_at(value, 3);
            Ok(FlowMatchField::PbbIsid(PbbIsid::new(v, Some(mk))))
        } else {
            if value.len() < 3 {
                return Err(Error::Truncated);
            }
            let v = wire::read_u24_at(value, 0);
            Ok(FlowMatchField::PbbIsid(PbbIsid::new(v, None)))
        }
    }

    /// Write the payload bytes at `buf[off]`.
    pub(crate) fn emit_value_at(&self, buf: &mut [u8], off: usize)
        requires
            off + self.spec_value_bytes().len() <= old(buf)@.len(),
        ensures
            final(buf)@ == wire::splice(old(buf)@, off as int, self.spec_value_bytes()),
    {
        wire::write_u24_at(buf, off, self.value);
        match self.mask {
            Some(mk) => {
                let blen = buf.len();
                assert(off + 6 <= blen);
                wire::write_u24_at(buf, off + 3, mk);
                proof {
                    wire::lemma_splice_adjacent(old(buf)@, off as int, wire::spec_u24_be(self.value), wire::spec_u24_be(mk));
                }
            },
            None => {},
        }
    }

    /// Parsing the TLV this field emits, whatever bytes follow it,
    /// yields the field back.
    pub(crate) proof fn lemma_roundtrip(f: Self, rest: Seq<u8>)
        requires
            f.spec_wf(),
        ensures
            FlowMatchField::PbbIsid(f).spec_wire().len() >= 5,
            crate::oxm::packet::tlv_class(FlowMatchField::PbbIsid(f).spec_wire() + rest) == 0x8000,
            crate::oxm::packet::tlv_field(FlowMatchField::PbbIsid(f).spec_wire() + rest) == consts::PBB_ISID,
            crate::oxm::packet::tlv_length(FlowMatchField::PbbIsid(f).spec_wire() + rest) == f.spec_value_bytes().len(),
            Self::spec_parse_tlv(FlowMatchField::PbbIsid(f).spec_wire() + rest) == Ok::<FlowMatchField, Error>(FlowMatchField::PbbIsid(f)),
    {
        let vb = f.spec_value_bytes();
        let w = FlowMatchField::PbbIsid(f).spec_wire();
        let b = w + rest;
        super::lemma_std_tlv_header(consts::PBB_ISID, f.spec_has_mask(), vb);
        assert forall|k: int| 0 <= k < w.len() implies b[k] == super::std_tlv(consts::PBB_ISID,
            f.spec_has_mask(), vb)[k] by {}
        wire::lemma_u24_masked_bound(f.value);
        wire::lemma_u24_roundtrip(b, 4, f.value);
        match f.mask {
            Some(mk) => {
                wire::lemma_u24_masked_bound(mk);
                wire::lemma_u24_roundtrip(b, 7, mk);
            },
            None => (),
        }
    }
}

/// IPv6 extension header pseudo-field.  16-bit integer of which only the lower 9 bits have meaning; arbitrary masks.
#[derive(Debug, PartialEq, Eq, Clone)]
pub struct Ipv6ExtensionHeader {
    pub value: u16,
    pub mask: Option<u16>,
}

impl Ipv6ExtensionHeader {
    /// Stored value and mask never exceed the significant bit width.
    pub open spec fn spec_wf(&self) -> bool {
        self.value & 0x01ff == self.value && (self.mask matches Some(mk) ==> mk & 0x01ff == mk)
    }

    pub open spec fn spec_has_mask(&self) -> bool {
        self.mask is Some
    }

    /// The payload bytes: the value, then the mask when present.
    pub open spec fn spec_value_bytes(&self) -> Seq<u8> {
        match self.mask {
            Some(mk) => wire::spec_u16_be(self.value) + wire::spec_u16_be(mk),
            None => wire::spec_u16_be(self.value),
        }
    }

    /// What parsing a standard TLV as this field yields.
    pub open spec fn spec_parse_tlv(b: Seq<u8>) -> Result<FlowMatchField, Error> {
        if crate::oxm::packet::tlv_has_mask(b) {
            if b.len() < 4 + 4 {
                Err(Error::Truncated)
            } else {
                Ok(FlowMatchField::Ipv6ExtensionHeader(Ipv6ExtensionHeader {
                    value: wire::spec_read_u16(b, 4) & 0x01ff,
                    mask: Some(wire::spec_read_u16(b, 6) & 0x01ff),
                }))
            }
        } else {
            if b.len() < 4 + 2 {
                Err(Error::Truncated)
            } else {
                Ok(FlowMatchField::Ipv6ExtensionHeader(Ipv6ExtensionHeader { value: wire::spec_read_u16(b, 4) & 0x01ff, mask: None }))
            }
        }
    }

    /// Create a new `Ipv6ExtensionHeader` field from a value and an optional mask, both truncated to the significant bits.
    pub fn new(value: u16, mask: Option<u16>) -> (r: Self)
        ensures
            r.value == value & 0x01ff,
            mask matches Some(mk) ==> r.mask == Some(mk & 0x01ff),
            mask is None ==> r.mask is None,
            r.spec_wf(),
    {
        proof {
            wire::lemma_u16_and_idem(value, 0x01ff);
            match mask {
                Some(mk) => wire::lemma_u16_and_idem(mk, 0x01ff),
                None => (),
            }
        }
        Ipv6ExtensionHeader {
            value: value & 0x01ff,
            mask: match mask {
                Some(mk) => Some(mk & 0x01ff),
                None => None,
            },
        }
    }

    /// Replace the value, it is truncated to the significant bits.
    pub fn set_value(&mut self, value: u16)
        ensures
            final(self).value == value & 0x01ff,
            final(self).mask == old(self).mask,
            old(self).spec_wf() ==> final(self).spec_wf(),
    {
        proof { wire::lemma_u16_and_idem(value, 0x01ff); }
        self.value = value & 0x01ff;
    }

    /// Set the mask, truncated to the significant bits.
    pub fn set_mask(&mut self, mask: u16)
        ensures
            final(self).mask == Some(mask & 0x01ff),
            final(self).value == old(self).value,
            old(self).spec_wf() ==> final(self).spec_wf(),
    {
        proof { wire::lemma_u16_and_idem(mask, 0x01ff); }
        self.mask = Some(mask & 0x01ff);
    }

    /// Remove the mask.
    pub fn unset_mask(&mut self)
        ensures
            final(self).mask is None,
            final(self).value == old(self).value,
            old(self).spec_wf() ==> final(self).spec_wf(),
    {
        self.mask = None;
    }

    /// The payload length: the base length, doubled when masked.
    pub fn value_len(&self) -> (r: usize)
        ensures
            r == self.spec_value_bytes().len(),
            self.mask is Some ==> r == 4,
            self.mask is None ==> r == 2,
    {
        if self.mask.is_some() { 4 } else { 2 }
    }

    /// Whether the payload carries a mask.
    pub fn has_mask(&self) -> (r: bool)
        ensures
            r == self.spec_has_mask(),
            r == (self.mask is Some),
    {
        self.mask.is_some()
    }

    /// The `oxm_field` code of this field.
    pub fn code() -> (r: u8)
        ensures
            r == consts::IPV6_EXTENSION_HEADER,
    {
        consts::IPV6_EXTENSION_HEADER
    }

    /// Parse the payload of a checked standard TLV as this field.
    pub(crate) fn parse_tlv(packet: &Packet<'_>) -> (r: Result<FlowMatchField, Error>)
        requires
            packet.bytes().len() >= 4,
        ensures
            r == Self::spec_parse_tlv(packet.bytes()),
            r matches Ok(f) ==> f.spec_wf() && 5 <= f.spec_wire().len() <= packet.bytes().len(),
    {
        let value = packet.value();
        if packet.has_mask() {
            if value.len() < 4 {
                return Err(Error::Truncated);
            }
            let v = wire::read_u16_at(value, 0);
            let mk = wire::read_u16_at(value, 2);
            Ok(FlowMatchField::Ipv6ExtensionHeader(Ipv6ExtensionHeader::new(v, Some(mk))))
        } else {
            if value.len() < 2 {
                return Err(Error::Truncated);
            }
            let v = wire::read_u16_at(value, 0);
            Ok(FlowMatchField::Ipv6ExtensionHeader(Ipv6ExtensionHeader::new(v, None)))
        }
    }

    /// Write the payload bytes at `buf[off]`.
    pub(crate) fn emit_value_at(&self, buf: &mut [u8], off: usize)
        requires
            off + self.spec_value_bytes().len() <= old(buf)@.len(),
        ensures
            final(buf)@ == wire::splice(old(buf)@, off as int, self.spec_value_bytes()),
    {
        wire::write_u16_at(buf, off, self.value);
        match self.mask {
            Some(mk) => {
                let blen = buf.len();
                assert(off + 4 <= blen);
                wire::write_u16_at(buf, off + 2, mk);
                proof {
                    wire::lemma_splice_adjacent(old(buf)@, off as int, wire::spec_u16_be(self.value), wire::spec_u16_be(mk));
                }
            },
            None => {},
        }
    }

    /// Parsing the TLV this field emits, whatever bytes follow it,
    /// yields the field back.
    pub(crate) proof fn lemma_roundtrip(f: Self, rest: Seq<u8>)
        requires
            f.spec_wf(),
        ensures
            FlowMatchField::Ipv6ExtensionHeader(f).spec_wire().len() >= 5,
            crate::oxm::packet::tlv_class(FlowMatchField::Ipv6ExtensionHeader(f).spec_wire() + rest) == 0x8000,
            crate::oxm::packet::tlv_field(FlowMatchField::Ipv6ExtensionHeader(f).spec_wire() + rest) == consts::IPV6_EXTENSION_HEADER,
            crate::oxm::packet::tlv_length(FlowMatchField::Ipv6ExtensionHeader(f).spec_wire() + rest) == f.spec_value_bytes().len(),
            Self::spec_parse_tlv(FlowMatchField::Ipv6ExtensionHeader(f).spec_wire() + rest) == Ok::<FlowMatchField, Error>(FlowMatchField::Ipv6ExtensionHeader(f)),
    {
        let vb = f.spec_value_bytes();
        let w = FlowMatchField::Ipv6ExtensionHeader(f).spec_wire();
        let b = w + rest;
        super::lemma_std_tlv_header(consts::IPV6_EXTENSION_HEADER, f.spec_has_mask(), vb);
        assert forall|k: int| 0 <= k < w.len() implies b[k] == super::std_tlv(consts::IPV6_EXTENSION_HEADER,
            f.spec_has_mask(), vb)[k] by {}
        wire::lemma_u16_roundtrip(b, 4, f.value);
        match f.mask {
            Some(mk) => wire::lemma_u16_roundtrip(b, 6, mk),
            None => (),
        }
    }
}

/// IEEE 802.1ah UCA from the outermost service tag.  One byte of which only the lowest bit has meaning; not maskable.
#[derive(Debug, PartialEq, Eq, Clone)]
pub struct PbbUca(pub bool);

impl PbbUca {
    /// Always true: a flag is always canonical.
    pub open spec fn spec_wf(&self) -> bool {
        true
    }

    pub open spec fn spec_has_mask(&self) -> bool {
        false
    }

    /// The payload byte: 1 when set, 0 when clear.
    pub open spec fn spec_value_bytes(&self) -> Seq<u8> {
        seq![if self.0 { 1u8 } else { 0u8 }]
    }

    /// What parsing a standard TLV as this field yields: the low bit of
    /// the payload byte.
    pub open spec fn spec_parse_tlv(b: Seq<u8>) -> Result<FlowMatchField, Error> {
        if b.len() < 5 {
            Err(Error::Truncated)
        } else {
            Ok(FlowMatchField::PbbUca(PbbUca(b[4] & 1 == 1)))
        }
    }

    /// Create a new `PbbUca` field.
    pub fn new(value: bool) -> (r: Self)
        ensures
            r == PbbUca(value),
            r.spec_wf(),
    {
        PbbUca(value)
    }

    /// Replace the value.
    pub fn set_value(&mut self, value: bool)
        ensures
            *final(self) == PbbUca(value),
            final(self).spec_wf(),
    {
        self.0 = value;
    }

    /// The payload length in bytes.
    pub fn value_len(&self) -> (r: usize)
        ensures
            r == self.spec_value_bytes().len(),
            r == 1,
    {
        1
    }

    /// This field never carries a mask.
    pub fn has_mask(&self) -> (r: bool)
        ensures
            r == self.spec_has_mask(),
            r == false,
    {
        false
    }

    /// The `oxm_field` code of this field.
    pub fn code() -> (r: u8)
        ensures
            r == consts::PBB_UCA,
    {
        consts::PBB_UCA
    }

    /// Parse the payload of a checked standard TLV as this field.
    pub(crate) fn parse_tlv(packet: &Packet<'_>) -> (r: Result<FlowMatchField, Error>)
        requires
            packet.bytes().len() >= 4,
        ensures
            r == Self::spec_parse_tlv(packet.bytes()),
            r matches Ok(f) ==> f.spec_wf() && 5 <= f.spec_wire().len() <= packet.bytes().len(),
    {
        let value = packet.value();
        if value.len() < 1 {
            return Err(Error::Truncated);
        }
        let byte = wire::read_u8_at(value, 0);
        Ok(FlowMatchField::PbbUca(PbbUca::new(byte & 1 == 1)))
    }

    /// Write the payload bytes at `buf[off]`.
    pub(crate) fn emit_value_at(&self, buf: &mut [u8], off: usize)
        requires
            off + self.spec_value_bytes().len() <= old(buf)@.len(),
        ensures
            final(buf)@ == wire::splice(old(buf)@, off as int, self.spec_value_bytes()),
    {
        wire::write_u8_at(buf, off, if self.0 { 1 } else { 0 });
    }

    /// Parsing the TLV this field emits, whatever bytes follow it,
    /// yields the field back.
    pub(crate) proof fn lemma_roundtrip(f: Self, rest: Seq<u8>)
        requires
            f.spec_wf(),
        ensures
            FlowMatchField::PbbUca(f).spec_wire().len() >= 5,
            crate::oxm::packet::tlv_class(FlowMatchField::PbbUca(f).spec_wire() + rest) == 0x8000,
            crate::oxm::packet::tlv_field(FlowMatchField::PbbUca(f).spec_wire() + rest) == consts::PBB_UCA,
            crate::oxm::packet::tlv_length(FlowMatchField::PbbUca(f).spec_wire() + rest) == f.spec_value_bytes().len(),
            Self::spec_parse_tlv(FlowMatchField::PbbUca(f).spec_wire() + rest) == Ok::<FlowMatchField, Error>(FlowMatchField::PbbUca(f)),
    {
        let vb = f.spec_value_bytes();
        let w = FlowMatchField::PbbUca(f).spec_wire();
        let b = w + rest;
        super::lemma_std_tlv_header(consts::PBB_UCA, f.spec_has_mask(), vb);
        assert forall|k: int| 0 <= k < w.len() implies b[k] == super::std_tlv(consts::PBB_UCA,
            f.spec_has_mask(), vb)[k] by {}
        assert((1u8 & 1) == 1 && (0u8 & 1) == 0) by (bit_vector);
    }
}

/// TCP flags.  16-bit integer of which only the lower 12 bits have meaning; arbitrary masks.
#[derive(Debug, PartialEq, Eq, Clone)]
pub struct TcpFlags {
    pub value: u16,
    pub mask: Option<u16>,
}

impl TcpFlags {
    /// Stored value and mask never exceed the significant bit width.
    pub open spec fn spec_wf(&self) -> bool {
        self.value & 0x0fff == self.value && (self.mask matches Some(mk) ==> mk & 0x0fff == mk)
    }

    pub open spec fn spec_has_mask(&self) -> bool {
        self.mask is Some
    }

    /// The payload bytes: the value, then the mask when present.
    pub open spec fn spec_value_bytes(&self) -> Seq<u8> {
        match self.mask {
            Some(mk) => wire::spec_u16_be(self.value) + wire::spec_u16_be(mk),
            None => wire::spec_u16_be(self.value),
        }
    }

    /// What parsing a standard TLV as this field yields.
    pub open spec fn spec_parse_tlv(b: Seq<u8>) -> Result<FlowMatchField, Error> {
        if crate::oxm::packet::tlv_has_mask(b) {
            if b.len() < 4 + 4 {
                Err(Error::Truncated)
            } else {
                Ok(FlowMatchField::TcpFlags(TcpFlags {
                    value: wire::spec_read_u16(b, 4) & 0x0fff,
                    mask: Some(wire::spec_read_u16(b, 6) & 0x0fff),
                }))
            }
        } else {
            if b.len() < 4 + 2 {
                Err(Error::Truncated)
            } else {
                Ok(FlowMatchField::TcpFlags(TcpFlags { value: wire::spec_read_u16(b, 4) & 0x0fff, mask: None }))
            }
        }
    }

    /// Create a new `TcpFlags` field from a value and an optional mask, both truncated to the significant bits.
    pub fn new(value: u16, mask: Option<u16>) -> (r: Self)
        ensures
            r.value == value & 0x0fff,
            mask matches Some(mk) ==> r.mask == Some(mk & 0x0fff),
            mask is None ==> r.mask is None,
            r.spec_wf(),
    {
        proof {
            wire::lemma_u16_and_idem(value, 0x0fff);
            match mask {
                Some(mk) => wire::lemma_u16_and_idem(mk, 0x0fff),
                None => (),
            }
        }
        TcpFlags {
            value: value & 0x0fff,
            mask: match mask {
                Some(mk) => Some(mk & 0x0fff),
                None => None,
            },
        }
    }

    /// Replace the value, it is truncated to the significant bits.
    pub fn set_value(&mut self, value: u16)
        ensures
            final(self).value == value & 0x0fff,
            final(self).mask == old(self).mask,
            old(self).spec_wf() ==> final(self).spec_wf(),
    {
        proof { wire::lemma_u16_and_idem(value, 0x0fff); }
        self.value = value & 0x0fff;
    }

    /// Set the mask, truncated to the significant bits.
    pub fn set_mask(&mut self, mask: u16)
        ensures
            final(self).mask == Some(mask & 0x0fff),
            final(self).value == old(self).value,
            old(self).spec_wf() ==> final(self).spec_wf(),
    {
        proof { wire::lemma_u16_and_idem(mask, 0x0fff); }
        self.mask = Some(mask & 0x0fff);
    }

    /// Remove the mask.
    pub fn unset_mask(&mut self)
        ensures
            final(self).mask is None,
            final(self).value == old(self).value,
            old(self).spec_wf() ==> final(self).spec_wf(),
    {
        self.mask = None;
    }

    /// The payload length: the base length, doubled when masked.
    pub fn value_len(&self) -> (r: usize)
        ensures
            r == self.spec_value_bytes().len(),
            self.mask is Some ==> r == 4,
            self.mask is None ==> r == 2,
    {
        if self.mask.is_some() { 4 } else { 2 }
    }

    /// Whether the payload carries a mask.
    pub fn has_mask(&self) -> (r: bool)
        ensures
            r == self.spec_has_mask(),
            r == (self.mask is Some),
    {
        self.mask.is_some()
    }

    /// The `oxm_field` code of this field.
    pub fn code() -> (r: u8)
        ensures
            r == consts::TCP_FLAGS,
    {
        consts::TCP_FLAGS
    }

    /// Parse the payload of a checked standard TLV as this field.
    pub(crate) fn parse_tlv(packet: &Packet<'_>) -> (r: Result<FlowMatchField, Error>)
        requires
            packet.bytes().len() >= 4,
        ensures
            r == Self::spec_parse_tlv(packet.bytes()),
            r matches Ok(f) ==> f.spec_wf() && 5 <= f.spec_wire().len() <= packet.bytes().len(),
    {
        let value = packet.value();
        if packet.has_mask() {
            if value.len() < 4 {
                return Err(Error::Truncated);
            }
            let v = wire::read_u16_at(value, 0);
            let mk = wire::read_u16_at(value, 2);
            Ok(FlowMatchField::TcpFlags(TcpFlags::new(v, Some(mk))))
        } else {
            if value.len() < 2 {
                return Err(Error::Truncated);
            }
            let v = wire::read_u16_at(value, 0);
            Ok(FlowMatchField::TcpFlags(TcpFlags::new(v, None)))
        }
    }

    /// Write the payload bytes at `buf[off]`.
    pub(crate) fn emit_value_at(&self, buf: &mut [u8], off: usize)
        requires
            off + self.spec_value_bytes().len() <= old(buf)@.len(),
        ensures
            final(buf)@ == wire::splice(old(buf)@, off as int, self.spec_value_bytes()),
    {
        wire::write_u16_at(buf, off, self.value);
        match self.mask {
            Some(mk) => {
                let blen = buf.len();
                assert(off + 4 <= blen);
                wire::write_u16_at(buf, off + 2, mk);
                proof {
                    wire::lemma_splice_adjacent(old(buf)@, off as int, wire::spec_u16_be(self.value), wire::spec_u16_be(mk));
                }
            },
            None => {},
        }
    }

    /// Parsing the TLV this field emits, whatever bytes follow it,
    /// yields the field back.
    pub(crate) proof fn lemma_roundtrip(f: Self, rest: Seq<u8>)
        requires
            f.spec_wf(),
        ensures
            FlowMatchField::TcpFlags(f).spec_wire().len() >= 5,
            crate::oxm::packet::tlv_class(FlowMatchField::TcpFlags(f).spec_wire() + rest) == 0x8000,
            crate::oxm::packet::tlv_field(FlowMatchField::TcpFlags(f).spec_wire() + rest) == consts::TCP_FLAGS,
            crate::oxm::packet::tlv_length(FlowMatchField::TcpFlags(f).spec_wire() + rest) == f.spec_value_bytes().len(),
            Self::spec_parse_tlv(FlowMatchField::TcpFlags(f).spec_wire() + rest) == Ok::<FlowMatchField, Error>(FlowMatchField::TcpFlags(f)),
    {
        let vb = f.spec_value_bytes();
        let w = FlowMatchField::TcpFlags(f).spec_wire();
        let b = w + rest;
        super::lemma_std_tlv_header(consts::TCP_FLAGS, f.spec_has_mask(), vb);
        assert forall|k: int| 0 <= k < w.len() implies b[k] == super::std_tlv(consts::TCP_FLAGS,
            f.spec_has_mask(), vb)[k] by {}
        wire::lemma_u16_roundtrip(b, 4, f.value);
        match f.mask {
            Some(mk) => wire::lemma_u16_roundtrip(b, 6, mk),
            None => (),
        }
    }
}

} // verus!
