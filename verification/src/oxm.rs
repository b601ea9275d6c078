//! OXM (OpenFlow eXtensible Match): self-describing TLVs carrying match and
//! pipeline fields.
//!
//! A TLV is a 4-byte header followed by a variable-size payload:
//!
//! ```text
//! 0                       16             23  24             32
//! +------------------------+-------------+----+-------------+
//! |       oxm_class        |  oxm_field  | HM |  oxm_length |
//! +------------------------+-------------+----+-------------+
//! |                     value and/or mask                   |
//! |                      (variable size)                    |
//! +---------------------------------------------------------+
//! ```
//!
//! `oxm_class` selects the namespace of the field; `oxm_field` one match type
//! within it.  When `HM` (has-mask) is set, the first half of the payload is
//! the value and the second half a mask.  `oxm_length` is the payload length
//! in bytes, so the whole TLV is `4 + oxm_length` bytes long.

use vstd::prelude::*;

use crate::oxm::packet as packet_layout;
use crate::wire;
use crate::Error;
use crate::Repr;

pub mod fields;
pub mod flow_match;
pub mod packet;

pub use packet::Packet;

pub use flow_match::PacketRepr as FlowMatch;

pub use fields::FlowMatchField;
pub use fields::header::{
    ArpOpCode, ArpSha, ArpSpa, ArpTha, ArpTpa, EthernetDestination, EthernetSource, EthernetType,
    IcmpCode, IcmpType, Icmpv6Code, Icmpv6Type, IpDscp, IpEcn, IpProtocol, Ipv4Destination,
    Ipv4Source, Ipv6Destination, Ipv6ExtensionHeader, Ipv6FlowLabel, Ipv6NdSll, Ipv6NdTarget,
    Ipv6NdTll, Ipv6Source, MplsBos, MplsLabel, MplsTc, PbbIsid, PbbUca, SctpDestination,
    SctpSource, TcpDestination, TcpFlags, TcpSource, UdpDestination, UdpSource, VlanId,
    VlanPriority,
};
pub use fields::pipeline::{
    ActionSetOutput, InPhysicalPort, InPort, Metadata, PacketType, TunnelId,
};

verus! {

/// Backward compatibility with NXM (rejected by this crate).
pub const CLASS_NXM0: u16 = 0x0000;

/// Backward compatibility with NXM (rejected by this crate).
pub const CLASS_NXM1: u16 = 0x0001;

/// Basic class for OpenFlow: the standard flow match fields.
pub const CLASS_OPEN_FLOW_BASIC: u16 = 0x8000;

/// Packet registers (pipeline fields).
pub const CLASS_PACKET_REGISTERS: u16 = 0x8001;

/// Experimenter class.
pub const CLASS_EXPERIMENTER: u16 = 0xFFFF;

/// The byte string of a packet-registers TLV: class `0x8001`, then the
/// register index and has-mask flag packed in one byte, then the payload
/// length, then the payload itself.
pub open spec fn regs_tlv(field: u8, hm: bool, vb: Seq<u8>) -> Seq<u8> {
    seq![0x80u8, 0x01u8, (field << 1) | (if hm { 1u8 } else { 0u8 }), vb.len() as u8] + vb
}

/// How the header fields of a packet-registers TLV read back.
pub proof fn lemma_regs_tlv_header(field: u8, hm: bool, vb: Seq<u8>)
    requires
        field < 0x80,
        vb.len() <= 0xff,
    ensures
        regs_tlv(field, hm, vb).len() == 4 + vb.len(),
        packet_layout::tlv_class(regs_tlv(field, hm, vb)) == 0x8001,
        packet_layout::tlv_field(regs_tlv(field, hm, vb)) == field,
        packet_layout::tlv_has_mask(regs_tlv(field, hm, vb)) == hm,
        packet_layout::tlv_length(regs_tlv(field, hm, vb)) == vb.len(),
        forall|k: int| 0 <= k < vb.len() ==> regs_tlv(field, hm, vb)[4 + k] == vb[k],
{
    assert(field < 0x80 ==> (((field << 1) | 1u8) >> 1 == field && ((field << 1) | 0u8) >> 1
        == field && (((field << 1) | 1u8) & 1) == 1 && (((field << 1) | 0u8) & 1) == 0))
        by (bit_vector);
    assert((((0x80u8) as u16) << 8) | ((0x01u8) as u16) == 0x8001) by (bit_vector);
}

/// A packet-registers OXM entry: an open register index, a 64-bit value and
/// an optional 64-bit mask.  Its payload is 8 bytes (unmasked) or 16 bytes
/// (masked), so the whole TLV occupies 12 or 20 bytes.
#[derive(Debug, PartialEq, Eq, Clone)]
pub struct PacketRegisters {
    pub field: u8,
    pub value: u64,
    pub mask: Option<u64>,
}

impl PacketRegisters {
    /// The register index fits the 7-bit field code of the header.
    pub open spec fn spec_wf(&self) -> bool {
        self.field < 0x80
    }

    pub open spec fn spec_has_mask(&self) -> bool {
        self.mask is Some
    }

    /// The payload bytes: the value, then the mask when present.
    pub open spec fn spec_value_bytes(&self) -> Seq<u8> {
        match self.mask {
            Some(mk) => wire::spec_u64_be(self.value) + wire::spec_u64_be(mk),
            None => wire::spec_u64_be(self.value),
        }
    }

    /// The exact TLV bytes this entry emits.
    pub open spec fn spec_wire(&self) -> Seq<u8> {
        regs_tlv(self.field, self.spec_has_mask(), self.spec_value_bytes())
    }

    /// What parsing a checked packet-registers TLV yields.  The declared
    /// length must be exactly 8 or 16, and must be 16 whenever the has-mask
    /// flag demands a mask after the value: anything else is
    /// self-contradictory and fails with [`Error::Malformed`].
    pub open spec fn spec_parse(b: Seq<u8>) -> Result<PacketRegisters, Error> {
        let lenf = packet_layout::tlv_length(b);
        let hm = packet_layout::tlv_has_mask(b);
        if lenf != 8 && lenf != 16 {
            Err(Error::Malformed)
        } else if hm && lenf != 16 {
            Err(Error::Malformed)
        } else {
            Ok(PacketRegisters {
                field: packet_layout::tlv_field(b),
                value: wire::spec_read_u64(b, 4),
                mask: if hm {
                    Some(wire::spec_read_u64(b, 12))
                } else {
                    None
                },
            })
        }
    }

    pub(crate) fn parse(packet: &Packet<'_>) -> (r: Result<PacketRegisters, Error>)
        requires
            packet_layout::tlv_len_ok(packet.bytes()),
        ensures
            r == Self::spec_parse(packet.bytes()),
            r matches Ok(x) ==> x.spec_wf() && 12 <= x.spec_wire().len() <= packet.bytes().len(),
    {
        let len_field = packet.length();
        let hm = packet.has_mask();
        if len_field != 8 && len_field != 16 {
            return Err(Error::Malformed);
        }
        if hm && len_field != 16 {
            return Err(Error::Malformed);
        }
        let buf = packet.value();
        let value = wire::read_u64_at(buf, 0);
        let mask = if hm {
            Some(wire::read_u64_at(buf, 8))
        } else {
            None
        };
        let field = packet.field();
        proof {
            wire::lemma_shr1_bound(packet.bytes()[2]);
        }
        Ok(PacketRegisters { field, value, mask })
    }

    /// The length of the TLV this entry emits: 12 bytes unmasked, 20 masked.
    pub(crate) fn buffer_len(&self) -> (r: usize)
        ensures
            r == self.spec_wire().len(),
            self.mask is Some ==> r == 20,
            self.mask is None ==> r == 12,
    {
        if self.mask.is_some() {
            20
        } else {
            12
        }
    }

    fn emit_value_at(&self, buf: &mut [u8], off: usize)
        requires
            off + self.spec_value_bytes().len() <= old(buf)@.len(),
        ensures
            final(buf)@ == wire::splice(old(buf)@, off as int, self.spec_value_bytes()),
    {
        wire::write_u64_at(buf, off, self.value);
        match self.mask {
            Some(mk) => {
                let blen = buf.len();
                assert(off + 16 <= blen);
                wire::write_u64_at(buf, off + 8, mk);
                proof {
                    wire::lemma_splice_adjacent(
                        old(buf)@,
                        off as int,
                        wire::spec_u64_be(self.value),
                        wire::spec_u64_be(mk),
                    );
                }
            },
            None => {},
        }
    }

    pub(crate) fn emit(&self, buffer: &mut [u8]) -> (r: Result<(), Error>)
        ensures
            final(buffer)@.len() == old(buffer)@.len(),
            self.spec_wire().len() <= old(buffer)@.len() ==> (r matches Ok(()))
                && final(buffer)@ == wire::splice(old(buffer)@, 0, self.spec_wire()),
            self.spec_wire().len() > old(buffer)@.len() ==> (r matches Err(e)
                && e == Error::Exhausted) && final(buffer)@ == old(buffer)@,
    {
        self.emit_at(buffer, 0)
    }

    pub(crate) fn emit_at(&self, buffer: &mut [u8], offset: usize) -> (r: Result<(), Error>)
        ensures
            final(buffer)@.len() == old(buffer)@.len(),
            offset + self.spec_wire().len() <= old(buffer)@.len() ==> (r matches Ok(()))
                && final(buffer)@ == wire::splice(old(buffer)@, offset as int, self.spec_wire()),
            offset + self.spec_wire().len() > old(buffer)@.len() ==> (r matches Err(e)
                && e == Error::Exhausted) && final(buffer)@ == old(buffer)@,
    {
        let n = self.buffer_len();
        if !wire::fits(buffer.len(), offset, n) {
            return Err(Error::Exhausted);
        }
        let hm = self.mask.is_some();
        let fb: u8 = (self.field << 1) | (if hm { 1 } else { 0 });
        let vl: u8 = if hm { 16 } else { 8 };
        wire::write_u8_at(buffer, offset, 0x80);
        wire::write_u8_at(buffer, offset + 1, 0x01);
        wire::write_u8_at(buffer, offset + 2, fb);
        wire::write_u8_at(buffer, offset + 3, vl);
        self.emit_value_at(buffer, offset + 4);
        proof {
            let o = old(buffer)@;
            let voff = offset as int;
            let vb = self.spec_value_bytes();
            wire::lemma_splice_adjacent(o, voff, seq![0x80u8], seq![0x01u8]);
            wire::lemma_splice_adjacent(o, voff, seq![0x80u8] + seq![0x01u8], seq![fb]);
            wire::lemma_splice_adjacent(o, voff, seq![0x80u8] + seq![0x01u8] + seq![fb],
                seq![vl]);
            wire::lemma_splice_adjacent(o, voff,
                seq![0x80u8] + seq![0x01u8] + seq![fb] + seq![vl], vb);
            assert(seq![0x80u8] + seq![0x01u8] + seq![fb] + seq![vl] + vb =~= self.spec_wire());
        }
        Ok(())
    }

    /// Parsing the TLV this entry emits, whatever bytes follow it, yields
    /// the entry back unchanged.
    pub proof fn lemma_roundtrip(rg: PacketRegisters, rest: Seq<u8>)
        requires
            rg.spec_wf(),
        ensures
            12 <= rg.spec_wire().len(),
            packet_layout::tlv_len_ok(rg.spec_wire() + rest),
            packet_layout::tlv_class(rg.spec_wire() + rest) == 0x8001,
            PacketRegisters::spec_parse(rg.spec_wire() + rest) == Ok::<PacketRegisters, Error>(rg),
    {
        let vb = rg.spec_value_bytes();
        let w = rg.spec_wire();
        let b = w + rest;
        lemma_regs_tlv_header(rg.field, rg.spec_has_mask(), vb);
        assert forall|k: int| 0 <= k < w.len() implies b[k] == regs_tlv(rg.field,
            rg.spec_has_mask(), vb)[k] by {}
        wire::lemma_u64_roundtrip(b, 4, rg.value);
        match rg.mask {
            Some(mk) => wire::lemma_u64_roundtrip(b, 12, mk),
            None => (),
        }
    }
}

/// An OXM entry: a standard flow match field, a packet-registers entry, or
/// an experimenter payload whose codec the caller supplies through the
/// [`Repr`] trait.
#[derive(Debug, PartialEq, Eq, Clone)]
pub enum Oxm<E> {
    /// A standard flow match field (`oxm_class` is
    /// [`CLASS_OPEN_FLOW_BASIC`]).
    FlowMatchField(FlowMatchField),
    /// An experimenter payload (`oxm_class` is [`CLASS_EXPERIMENTER`]); the
    /// payload owns its own internal framing.
    Experimenter(E),
    /// A packet-registers entry (`oxm_class` is [`CLASS_PACKET_REGISTERS`]).
    PacketRegisters(PacketRegisters),
}

impl<E: Repr> Oxm<E> {
    pub open spec fn spec_wf(&self) -> bool {
        match self {
            Oxm::FlowMatchField(fd) => fd.spec_wf(),
            Oxm::PacketRegisters(rg) => rg.spec_wf(),
            Oxm::Experimenter(e) => e.wf(),
        }
    }

    /// The exact TLV bytes this entry emits.
    pub open spec fn spec_wire(&self) -> Seq<u8> {
        match self {
            Oxm::FlowMatchField(fd) => fd.spec_wire(),
            Oxm::PacketRegisters(rg) => rg.spec_wire(),
            Oxm::Experimenter(e) => e.wire(),
        }
    }

    /// What parsing yields for every class but the experimenter one, whose
    /// result depends on the caller-supplied codec: `None` stands for that
    /// open case.  A buffer shorter than the header plus the declared
    /// payload is rejected before the class is examined.
    pub open spec fn spec_parse_known(b: Seq<u8>) -> Option<Result<Oxm<E>, Error>> {
        if !packet_layout::tlv_len_ok(b) {
            Some(Err(Error::Truncated))
        } else {
            let c = packet_layout::tlv_class(b);
            if c == CLASS_OPEN_FLOW_BASIC {
                Some(
                    match FlowMatchField::spec_parse(b) {
                        Ok(fd) => Ok(Oxm::FlowMatchField(fd)),
                        Err(e) => Err(e),
                    },
                )
            } else if c == CLASS_PACKET_REGISTERS {
                Some(
                    match PacketRegisters::spec_parse(b) {
                        Ok(rg) => Ok(Oxm::PacketRegisters(rg)),
                        Err(e) => Err(e),
                    },
                )
            } else if c == CLASS_EXPERIMENTER {
                None
            } else if c == CLASS_NXM0 || c == CLASS_NXM1 {
                Some(Err(Error::UnsupportedOxmClass))
            } else {
                Some(Err(Error::BadOxmClass))
            }
        }
    }

    /// Parse one OXM TLV, dispatching on the class of its header.  The
    /// experimenter class hands the entire buffer to `E`.
    pub fn parse(buffer: &[u8]) -> (r: Result<Oxm<E>, Error>)
        ensures
            Self::spec_parse_known(buffer@) matches Some(rr) ==> r == rr,
            Self::spec_parse_known(buffer@) is None ==> (r matches Ok(x) ==> x is Experimenter),
            r matches Ok(x) ==> x.spec_wf() && x.spec_wire().len() <= buffer@.len(),
    {
        let packet = match Packet::new_checked(buffer) {
            Ok(p) => p,
            Err(e) => {
                return Err(e);
            },
        };
        let class = packet.class();
        if class == CLASS_OPEN_FLOW_BASIC {
            match FlowMatchField::parse(&packet) {
                Ok(fd) => Ok(Oxm::FlowMatchField(fd)),
                Err(e) => Err(e),
            }
        } else if class == CLASS_PACKET_REGISTERS {
            match PacketRegisters::parse(&packet) {
                Ok(rg) => Ok(Oxm::PacketRegisters(rg)),
                Err(e) => Err(e),
            }
        } else if class == CLASS_EXPERIMENTER {
            match E::parse(packet.into_inner()) {
                Ok(e) => Ok(Oxm::Experimenter(e)),
                Err(e) => Err(e),
            }
        } else if class == CLASS_NXM0 || class == CLASS_NXM1 {
            Err(Error::UnsupportedOxmClass)
        } else {
            Err(Error::BadOxmClass)
        }
    }

    /// The length of the TLV this entry emits.
    pub fn buffer_len(&self) -> (r: usize)
        requires
            self.spec_wf(),
        ensures
            r == self.spec_wire().len(),
    {
        match self {
            Oxm::FlowMatchField(fd) => fd.buffer_len(),
            Oxm::PacketRegisters(rg) => rg.buffer_len(),
            Oxm::Experimenter(e) => e.buffer_len(),
        }
    }

    /// Emit this entry's TLV at the start of `buffer`.
    pub fn emit(&self, buffer: &mut [u8]) -> (r: Result<(), Error>)
        requires
            self.spec_wf(),
        ensures
            final(buffer)@.len() == old(buffer)@.len(),
            self.spec_wire().len() <= old(buffer)@.len() ==> (r matches Ok(()))
                && final(buffer)@ == wire::splice(old(buffer)@, 0, self.spec_wire()),
            self.spec_wire().len() > old(buffer)@.len() ==> (r matches Err(e)
                && e == Error::Exhausted) && final(buffer)@ == old(buffer)@,
    {
        self.emit_at(buffer, 0)
    }

    /// Emit this entry's TLV into `buffer` at `offset`.
    pub fn emit_at(&self, buffer: &mut [u8], offset: usize) -> (r: Result<(), Error>)
        requires
            self.spec_wf(),
        ensures
            final(buffer)@.len() == old(buffer)@.len(),
            offset + self.spec_wire().len() <= old(buffer)@.len() ==> (r matches Ok(()))
                && final(buffer)@ == wire::splice(old(buffer)@, offset as int, self.spec_wire()),
            offset + self.spec_wire().len() > old(buffer)@.len() ==> (r matches Err(e)
                && e == Error::Exhausted) && final(buffer)@ == old(buffer)@,
    {
        match self {
            Oxm::FlowMatchField(fd) => fd.emit_at(buffer, offset),
            Oxm::PacketRegisters(rg) => rg.emit_at(buffer, offset),
            Oxm::Experimenter(e) => e.emit_at(buffer, offset),
        }
    }

    /// For every OXM entry other than the experimenter extension, whose
    /// codec belongs to the caller: parsing the TLV it emits, whatever
    /// bytes follow it, yields the entry back unchanged.
    pub proof fn lemma_roundtrip(x: Oxm<E>, rest: Seq<u8>)
        requires
            x.spec_wf(),
            !(x is Experimenter),
        ensures
            5 <= x.spec_wire().len(),
            Oxm::<E>::spec_parse_known(x.spec_wire() + rest) == Some(Ok::<Oxm<E>, Error>(x)),
    {
        match x {
            Oxm::FlowMatchField(fd) => {
                FlowMatchField::lemma_roundtrip(fd, rest);
            },
            Oxm::PacketRegisters(rg) => {
                PacketRegisters::lemma_roundtrip(rg, rest);
            },
            Oxm::Experimenter(_) => (),
        }
    }
}

impl<E: Repr> Repr for Oxm<E> {
    open spec fn wf(&self) -> bool {
        self.spec_wf()
    }

    open spec fn wire(&self) -> Seq<u8> {
        self.spec_wire()
    }

    fn parse(buffer: &[u8]) -> (r: Result<Self, Error>) {
        Oxm::<E>::parse(buffer)
    }

    fn buffer_len(&self) -> (r: usize) {
        Oxm::<E>::buffer_len(self)
    }

    fn emit(&self, buffer: &mut [u8]) -> (r: Result<(), Error>) {
        Oxm::<E>::emit(self, buffer)
    }

    fn emit_at(&self, buffer: &mut [u8], offset: usize) -> (r: Result<(), Error>) {
        Oxm::<E>::emit_at(self, buffer, offset)
    }
}

} // verus!
