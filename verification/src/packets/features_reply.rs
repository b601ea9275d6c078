//! The features-reply message body: datapath identity and capabilities.
//!
//! Fixed 24-byte layout: datapath id (8), buffer count (4), table count (1),
//! auxiliary id (1), two reserved padding bytes, capabilities (4),
//! reserved (4).

use vstd::prelude::*;

use crate::wire;
use crate::Error;
use crate::Repr;

verus! {

/// Flow statistics capability.
pub const CAP_FLOW_STATS: u32 = 1;

/// Table statistics capability.
pub const CAP_TABLE_STATS: u32 = 1 << 1;

/// Port statistics capability.
pub const CAP_PORT_STATS: u32 = 1 << 2;

/// Group statistics capability.
pub const CAP_GROUP_STATS: u32 = 1 << 3;

/// Can reassemble IP fragments.
pub const CAP_IP_REASSEMBLY: u32 = 1 << 5;

/// Queue statistics capability.
pub const CAP_QUEUE_STATS: u32 = 1 << 6;

/// Switch will block looping ports.
pub const CAP_PORT_BLOCKED: u32 = 1 << 8;

/// Switch supports bundles.
pub const CAP_BUNDLES: u32 = 1 << 9;

/// Switch supports flow monitoring.
pub const CAP_FLOW_MONITORING: u32 = 1 << 10;

/// Capabilities supported by the datapath, as a bitmap.
#[derive(Debug, PartialEq, Eq, Clone, Copy)]
pub struct Capabilities(pub u32);

impl Capabilities {
    /// Wrap a raw capability bitmap.
    pub fn new(bitmap: u32) -> (r: Self)
        ensures
            r == Capabilities(bitmap),
    {
        Capabilities(bitmap)
    }

    pub fn flow_stats(&self) -> (r: bool)
        ensures
            r == (self.0 & CAP_FLOW_STATS == CAP_FLOW_STATS),
    {
        (self.0 & CAP_FLOW_STATS) == CAP_FLOW_STATS
    }

    pub fn set_flow_stats(&mut self)
        ensures
            final(self).0 == old(self).0 | CAP_FLOW_STATS,
    {
        self.0 = self.0 | CAP_FLOW_STATS
    }

    pub fn table_stats(&self) -> (r: bool)
        ensures
            r == (self.0 & CAP_TABLE_STATS == CAP_TABLE_STATS),
    {
        (self.0 & CAP_TABLE_STATS) == CAP_TABLE_STATS
    }

    pub fn set_table_stats(&mut self)
        ensures
            final(self).0 == old(self).0 | CAP_TABLE_STATS,
    {
        self.0 = self.0 | CAP_TABLE_STATS
    }

    pub fn port_stats(&self) -> (r: bool)
        ensures
            r == (self.0 & CAP_PORT_STATS == CAP_PORT_STATS),
    {
        (self.0 & CAP_PORT_STATS) == CAP_PORT_STATS
    }

    pub fn set_port_stats(&mut self)
        ensures
            final(self).0 == old(self).0 | CAP_PORT_STATS,
    {
        self.0 = self.0 | CAP_PORT_STATS
    }

    pub fn group_stats(&self) -> (r: bool)
        ensures
            r == (self.0 & CAP_GROUP_STATS == CAP_GROUP_STATS),
    {
        (self.0 & CAP_GROUP_STATS) == CAP_GROUP_STATS
    }

    pub fn set_group_stats(&mut self)
        ensures
            final(self).0 == old(self).0 | CAP_GROUP_STATS,
    {
        self.0 = self.0 | CAP_GROUP_STATS
    }

    pub fn ip_reassembly(&self) -> (r: bool)
        ensures
            r == (self.0 & CAP_IP_REASSEMBLY == CAP_IP_REASSEMBLY),
    {
        (self.0 & CAP_IP_REASSEMBLY) == CAP_IP_REASSEMBLY
    }

    pub fn set_ip_reassembly(&mut self)
        ensures
            final(self).0 == old(self).0 | CAP_IP_REASSEMBLY,
    {
        self.0 = self.0 | CAP_IP_REASSEMBLY
    }

    pub fn queue_stats(&self) -> (r: bool)
        ensures
            r == (self.0 & CAP_QUEUE_STATS == CAP_QUEUE_STATS),
    {
        (self.0 & CAP_QUEUE_STATS) == CAP_QUEUE_STATS
    }

    pub fn set_queue_stats(&mut self)
        ensures
            final(self).0 == old(self).0 | CAP_QUEUE_STATS,
    {
        self.0 = self.0 | CAP_QUEUE_STATS
    }

    pub fn port_blocked(&self) -> (r: bool)
        ensures
            r == (self.0 & CAP_PORT_BLOCKED == CAP_PORT_BLOCKED),
    {
        (self.0 & CAP_PORT_BLOCKED) == CAP_PORT_BLOCKED
    }

    pub fn set_port_blocked(&mut self)
        ensures
            final(self).0 == old(self).0 | CAP_PORT_BLOCKED,
    {
        self.0 = self.0 | CAP_PORT_BLOCKED
    }

    pub fn bundles(&self) -> (r: bool)
        ensures
            r == (self.0 & CAP_BUNDLES == CAP_BUNDLES),
    {
        (self.0 & CAP_BUNDLES) == CAP_BUNDLES
    }

    pub fn set_bundles(&mut self)
        ensures
            final(self).0 == old(self).0 | CAP_BUNDLES,
    {
        self.0 = self.0 | CAP_BUNDLES
    }

    pub fn flow_monitoring(&self) -> (r: bool)
        ensures
            r == (self.0 & CAP_FLOW_MONITORING == CAP_FLOW_MONITORING),
    {
        (self.0 & CAP_FLOW_MONITORING) == CAP_FLOW_MONITORING
    }

    pub fn set_flow_monitoring(&mut self)
        ensures
            final(self).0 == old(self).0 | CAP_FLOW_MONITORING,
    {
        self.0 = self.0 | CAP_FLOW_MONITORING
    }
}

/// A wrapper to read a features-reply body from a buffer.
#[derive(Debug, Clone)]
pub struct Packet<'a> {
    buffer: &'a [u8],
}

impl<'a> Packet<'a> {
    /// The wrapped bytes.
    pub closed spec fn bytes(&self) -> Seq<u8> {
        self.buffer@
    }

    pub fn new(buffer: &'a [u8]) -> (r: Self)
        ensures
            r.bytes() == buffer@,
    {
        Packet { buffer }
    }

    /// Return a reader after checking the exact 24-byte layout: shorter
    /// buffers are truncated, longer ones malformed.
    pub fn new_checked(buffer: &'a [u8]) -> (r: Result<Self, Error>)
        ensures
            buffer@.len() == 24 ==> (r matches Ok(p) && p.bytes() == buffer@),
            buffer@.len() < 24 ==> r == Err::<Self, Error>(Error::Truncated),
            buffer@.len() > 24 ==> r == Err::<Self, Error>(Error::Malformed),
    {
        let packet = Packet { buffer };
        match packet.check_len() {
            Ok(()) => Ok(packet),
            Err(e) => Err(e),
        }
    }

    /// Check the exact 24-byte layout.
    pub fn check_len(&self) -> (r: Result<(), Error>)
        ensures
            self.bytes().len() == 24 ==> r is Ok,
            self.bytes().len() < 24 ==> r == Err::<(), Error>(Error::Truncated),
            self.bytes().len() > 24 ==> r == Err::<(), Error>(Error::Malformed),
    {
        let len = self.buffer.len();
        if len < 24 {
            Err(Error::Truncated)
        } else if len > 24 {
            Err(Error::Malformed)
        } else {
            Ok(())
        }
    }

    /// Return the inner buffer.
    pub fn into_inner(self) -> (r: &'a [u8])
        ensures
            r@ == self.bytes(),
    {
        self.buffer
    }

    /// Return the `datapath_id` field.
    pub fn datapath_id(&self) -> (r: u64)
        requires
            self.bytes().len() >= 24,
        ensures
            r == wire::spec_read_u64(self.bytes(), 0),
    {
        wire::read_u64_at(self.buffer, 0)
    }

    /// Return the `n_buffers` field.
    pub fn n_buffers(&self) -> (r: u32)
        requires
            self.bytes().len() >= 24,
        ensures
            r == wire::spec_read_u32(self.bytes(), 8),
    {
        wire::read_u32_at(self.buffer, 8)
    }

    /// Return the `n_tables` field.
    pub fn n_tables(&self) -> (r: u8)
        requires
            self.bytes().len() >= 24,
        ensures
            r == self.bytes()[12],
    {
        self.buffer[12]
    }

    /// Return the `auxiliary_id` field.
    pub fn auxiliary_id(&self) -> (r: u8)
        requires
            self.bytes().len() >= 24,
        ensures
            r == self.bytes()[13],
    {
        self.buffer[13]
    }

    /// Return the `capabilities` field.
    pub fn capabilities(&self) -> (r: Capabilities)
        requires
            self.bytes().len() >= 24,
        ensures
            r == Capabilities(wire::spec_read_u32(self.bytes(), 16)),
    {
        Capabilities(wire::read_u32_at(self.buffer, 16))
    }

    /// Return the `reserved` field.
    pub fn reserved(&self) -> (r: u32)
        requires
            self.bytes().len() >= 24,
        ensures
            r == wire::spec_read_u32(self.bytes(), 20),
    {
        wire::read_u32_at(self.buffer, 20)
    }

    /// Write the `datapath_id` field of the body starting at `buf[0]`.
    pub fn set_datapath_id(buf: &mut [u8], value: u64)
        requires
            old(buf)@.len() >= 24,
        ensures
            final(buf)@ == wire::splice(old(buf)@, 0, wire::spec_u64_be(value)),
    {
        wire::write_u64_at(buf, 0, value);
    }

    /// Write the `n_buffers` field of the body starting at `buf[0]`.
    pub fn set_n_buffers(buf: &mut [u8], value: u32)
        requires
            old(buf)@.len() >= 24,
        ensures
            final(buf)@ == wire::splice(old(buf)@, 8, wire::spec_u32_be(value)),
    {
        wire::write_u32_at(buf, 8, value);
    }

    /// Write the `n_tables` field of the body starting at `buf[0]`.
    pub fn set_n_tables(buf: &mut [u8], value: u8)
        requires
            old(buf)@.len() >= 24,
        ensures
            final(buf)@ == old(buf)@.update(12, value),
    {
        buf[12] = value;
    }

    /// Write the `auxiliary_id` field of the body starting at `buf[0]`.
    pub fn set_auxiliary_id(buf: &mut [u8], value: u8)
        requires
            old(buf)@.len() >= 24,
        ensures
            final(buf)@ == old(buf)@.update(13, value),
    {
        buf[13] = value;
    }

    /// Write the `capabilities` field of the body starting at `buf[0]`.
    pub fn set_capabilities(buf: &mut [u8], value: Capabilities)
        requires
            old(buf)@.len() >= 24,
        ensures
            final(buf)@ == wire::splice(old(buf)@, 16, wire::spec_u32_be(value.0)),
    {
        wire::write_u32_at(buf, 16, value.0);
    }

    /// Write the `reserved` field of the body starting at `buf[0]`.
    pub fn set_reserved(buf: &mut [u8], value: u32)
        requires
            old(buf)@.len() >= 24,
        ensures
            final(buf)@ == wire::splice(old(buf)@, 20, wire::spec_u32_be(value)),
    {
        wire::write_u32_at(buf, 20, value);
    }
}

/// The high-level representation of a features-reply body.
#[derive(Debug, PartialEq, Eq, Clone, Copy)]
pub struct PacketRepr {
    /// Datapath unique id: the lower 48 bits hold a MAC address, the upper
    /// 16 are implementer-defined.
    pub datapath_id: u64,
    /// Max packets buffered at once.
    pub n_buffers: u32,
    /// Number of tables supported by the datapath.
    pub n_tables: u8,
    /// Identifies auxiliary connections.
    pub auxiliary_id: u8,
    /// Bitmap of supported capabilities.
    pub capabilities: Capabilities,
    /// Reserved bytes.
    pub reserved: u32,
}

impl PacketRepr {
    /// The exact 24 bytes this body emits; the two bytes after the
    /// auxiliary id are zero padding.
    pub open spec fn spec_wire(&self) -> Seq<u8> {
        wire::spec_u64_be(self.datapath_id) + wire::spec_u32_be(self.n_buffers)
            + seq![self.n_tables, self.auxiliary_id, 0u8, 0u8] + wire::spec_u32_be(
            self.capabilities.0,
        ) + wire::spec_u32_be(self.reserved)
    }

    /// Parse a features-reply body; the buffer must be exactly 24 bytes.
    pub fn parse(buffer: &[u8]) -> (r: Result<PacketRepr, Error>)
        ensures
            buffer@.len() < 24 ==> r == Err::<PacketRepr, Error>(Error::Truncated),
            buffer@.len() > 24 ==> r == Err::<PacketRepr, Error>(Error::Malformed),
            buffer@.len() == 24 ==> r == Ok::<PacketRepr, Error>(
                PacketRepr {
                    datapath_id: wire::spec_read_u64(buffer@, 0),
                    n_buffers: wire::spec_read_u32(buffer@, 8),
                    n_tables: buffer@[12],
                    auxiliary_id: buffer@[13],
                    capabilities: Capabilities(wire::spec_read_u32(buffer@, 16)),
                    reserved: wire::spec_read_u32(buffer@, 20),
                },
            ),
    {
        let packet = match Packet::new_checked(buffer) {
            Ok(p) => p,
            Err(e) => {
                return Err(e);
            },
        };
        Ok(
            PacketRepr {
                datapath_id: packet.datapath_id(),
                n_buffers: packet.n_buffers(),
                n_tables: packet.n_tables(),
                auxiliary_id: packet.auxiliary_id(),
                capabilities: packet.capabilities(),
                reserved: packet.reserved(),
            },
        )
    }

    /// The length of the body this representation emits: always 24 bytes.
    pub fn buffer_len(&self) -> (r: usize)
        ensures
            r == self.spec_wire().len(),
            r == 24,
    {
        24
    }

    /// Emit this body at the start of `buffer`.
    pub fn emit(&self, buffer: &mut [u8]) -> (r: Result<(), Error>)
        ensures
            final(buffer)@.len() == old(buffer)@.len(),
            self.spec_wire().len() <= old(buffer)@.len() ==> (r matches Ok(()))
                && final(buffer)@ == wire::splice(old(buffer)@, 0, self.spec_wire()),
            self.spec_wire().len() > old(buffer)@.len() ==> (r matches Err(e)
                && e == Error::Exhausted) && final(buffer)@ == old(buffer)@,
    {
        self.emit_at(buffer, 0)
    }

    /// Emit this body into `buffer` at `offset`.
    pub fn emit_at(&self, buffer: &mut [u8], offset: usize) -> (r: Result<(), Error>)
        ensures
            final(buffer)@.len() == old(buffer)@.len(),
            offset + self.spec_wire().len() <= old(buffer)@.len() ==> (r matches Ok(()))
                && final(buffer)@ == wire::splice(old(buffer)@, offset as int, self.spec_wire()),
            offset + self.spec_wire().len() > old(buffer)@.len() ==> (r matches Err(e)
                && e == Error::Exhausted) && final(buffer)@ == old(buffer)@,
    {
        if !wire::fits(buffer.len(), offset, 24) {
            return Err(Error::Exhausted);
        }
        wire::write_u64_at(buffer, offset, self.datapath_id);
        wire::write_u32_at(buffer, offset + 8, self.n_buffers);
        wire::write_u8_at(buffer, offset + 12, self.n_tables);
        wire::write_u8_at(buffer, offset + 13, self.auxiliary_id);
        wire::write_u8_at(buffer, offset + 14, 0);
        wire::write_u8_at(buffer, offset + 15, 0);
        wire::write_u32_at(buffer, offset + 16, self.capabilities.0);
        wire::write_u32_at(buffer, offset + 20, self.reserved);
        proof {
            let o = old(buffer)@;
            let voff = offset as int;
            let w0 = wire::spec_u64_be(self.datapath_id);
            let w1 = wire::spec_u32_be(self.n_buffers);
            let w6 = wire::spec_u32_be(self.capabilities.0);
            let w7 = wire::spec_u32_be(self.reserved);
            wire::lemma_splice_adjacent(o, voff, w0, w1);
            wire::lemma_splice_adjacent(o, voff, w0 + w1, seq![self.n_tables]);
            wire::lemma_splice_adjacent(o, voff, w0 + w1 + seq![self.n_tables],
                seq![self.auxiliary_id]);
            wire::lemma_splice_adjacent(o, voff,
                w0 + w1 + seq![self.n_tables] + seq![self.auxiliary_id], seq![0u8]);
            wire::lemma_splice_adjacent(o, voff,
                w0 + w1 + seq![self.n_tables] + seq![self.auxiliary_id] + seq![0u8], seq![0u8]);
            wire::lemma_splice_adjacent(o, voff,
                w0 + w1 + seq![self.n_tables] + seq![self.auxiliary_id] + seq![0u8] + seq![0u8],
                w6);
            wire::lemma_splice_adjacent(o, voff,
                w0 + w1 + seq![self.n_tables] + seq![self.auxiliary_id] + seq![0u8] + seq![0u8]
                    + w6, w7);
            assert(w0 + w1 + seq![self.n_tables] + seq![self.auxiliary_id] + seq![0u8] + seq![0u8]
                + w6 + w7 =~= self.spec_wire());
        }
        Ok(())
    }
}

impl Repr for PacketRepr {
    open spec fn wf(&self) -> bool {
        true
    }

    open spec fn wire(&self) -> Seq<u8> {
        self.spec_wire()
    }

    fn parse(buffer: &[u8]) -> (r: Result<Self, Error>) {
        PacketRepr::parse(buffer)
    }

    fn buffer_len(&self) -> (r: usize) {
        PacketRepr::buffer_len(self)
    }

    fn emit(&self, buffer: &mut [u8]) -> (r: Result<(), Error>) {
        PacketRepr::emit(self, buffer)
    }

    fn emit_at(&self, buffer: &mut [u8], offset: usize) -> (r: Result<(), Error>) {
        PacketRepr::emit_at(self, buffer, offset)
    }
}

} // verus!
