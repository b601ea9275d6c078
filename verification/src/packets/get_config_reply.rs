//! The get-config-reply message body: fragment handling flags and the
//! miss-send length.
//!
//! Fixed 4-byte layout: flags (2), miss_send_len (2).

use vstd::prelude::*;

use crate::wire;
use crate::Error;
use crate::Repr;

verus! {

/// How IP fragments are treated by the switch.
#[derive(Debug, PartialEq, Eq, Clone, Copy)]
pub enum Flags {
    /// Match fragments against the flow tables like any packet.
    FragmentNormal,
    /// Drop fragmented packets.
    FragmentDrop,
    /// Reassemble fragmented packets.
    FragmentReassemble,
    /// Mask for fragmentation handling.
    FragmentMask,
    /// Any other wire value.
    Invalid(u16),
}

impl Flags {
    pub open spec fn spec_from_u16(value: u16) -> Self {
        if value == 0 {
            Flags::FragmentNormal
        } else if value == 1 {
            Flags::FragmentDrop
        } else if value == 2 {
            Flags::FragmentReassemble
        } else if value == 3 {
            Flags::FragmentMask
        } else {
            Flags::Invalid(value)
        }
    }

    pub open spec fn spec_to_u16(self) -> u16 {
        match self {
            Flags::FragmentNormal => 0u16,
            Flags::FragmentDrop => 1u16,
            Flags::FragmentReassemble => 2u16,
            Flags::FragmentMask => 3u16,
            Flags::Invalid(f) => f,
        }
    }

    /// The flags designated by a 16-bit wire value.
    pub fn from_u16(value: u16) -> (r: Self)
        ensures
            r == Flags::spec_from_u16(value),
    {
        match value {
            0 => Flags::FragmentNormal,
            1 => Flags::FragmentDrop,
            2 => Flags::FragmentReassemble,
            3 => Flags::FragmentMask,
            f => Flags::Invalid(f),
        }
    }

    /// The 16-bit wire value of these flags.
    pub fn to_u16(self) -> (r: u16)
        ensures
            r == self.spec_to_u16(),
    {
        match self {
            Flags::FragmentNormal => 0,
            Flags::FragmentDrop => 1,
            Flags::FragmentReassemble => 2,
            Flags::FragmentMask => 3,
            Flags::Invalid(f) => f,
        }
    }
}

/// A wrapper to read a get-config-reply body from a buffer.
#[derive(Debug, Clone)]
pub struct Packet<'a> {
    buffer: &'a [u8],
}

impl<'a> Packet<'a> {
    /// The wrapped bytes.
    pub closed spec fn bytes(&self) -> Seq<u8> {
        self.buffer@
    }

    pub fn new(buffer: &'a [u8]) -> (r: Self)
        ensures
            r.bytes() == buffer@,
    {
        Packet { buffer }
    }

    /// Return a reader after checking that the 4-byte body is present.
    pub fn new_checked(buffer: &'a [u8]) -> (r: Result<Self, Error>)
        ensures
            buffer@.len() >= 4 ==> (r matches Ok(p) && p.bytes() == buffer@),
            buffer@.len() < 4 ==> r == Err::<Self, Error>(Error::Truncated),
    {
        let packet = Packet { buffer };
        match packet.check_len() {
            Ok(()) => Ok(packet),
            Err(e) => Err(e),
        }
    }

    /// Check that the 4-byte body is present.
    pub fn check_len(&self) -> (r: Result<(), Error>)
        ensures
            self.bytes().len() >= 4 ==> r is Ok,
            self.bytes().len() < 4 ==> r == Err::<(), Error>(Error::Truncated),
    {
        if self.buffer.len() < 4 {
            Err(Error::Truncated)
        } else {
            Ok(())
        }
    }

    /// Return the inner buffer.
    pub fn into_inner(self) -> (r: &'a [u8])
        ensures
            r@ == self.bytes(),
    {
        self.buffer
    }

    /// Return the `flags` field.
    pub fn flags(&self) -> (r: Flags)
        requires
            self.bytes().len() >= 4,
        ensures
            r == Flags::spec_from_u16(wire::spec_read_u16(self.bytes(), 0)),
    {
        Flags::from_u16(wire::read_u16_at(self.buffer, 0))
    }

    /// Return the `miss_send_len` field.
    pub fn miss_send_len(&self) -> (r: u16)
        requires
            self.bytes().len() >= 4,
        ensures
            r == wire::spec_read_u16(self.bytes(), 2),
    {
        wire::read_u16_at(self.buffer, 2)
    }

    /// Write the `flags` field of the body starting at `buf[0]`.
    pub fn set_flags(buf: &mut [u8], value: Flags)
        requires
            old(buf)@.len() >= 4,
        ensures
            final(buf)@ == wire::splice(old(buf)@, 0, wire::spec_u16_be(value.spec_to_u16())),
    {
        wire::write_u16_at(buf, 0, value.to_u16());
    }

    /// Write the `miss_send_len` field of the body starting at `buf[0]`.
    pub fn set_miss_send_len(buf: &mut [u8], value: u16)
        requires
            old(buf)@.len() >= 4,
        ensures
            final(buf)@ == wire::splice(old(buf)@, 2, wire::spec_u16_be(value)),
    {
        wire::write_u16_at(buf, 2, value);
    }
}

/// The high-level representation of a get-config-reply body.
#[derive(Debug, PartialEq, Eq, Clone, Copy)]
pub struct PacketRepr {
    /// Fragment handling flags.
    pub flags: Flags,
    /// How many bytes of a packet to ship with a packet-in message.
    pub miss_send_len: u16,
}

impl PacketRepr {
    /// The exact 4 bytes this body emits.
    pub open spec fn spec_wire(&self) -> Seq<u8> {
        wire::spec_u16_be(self.flags.spec_to_u16()) + wire::spec_u16_be(self.miss_send_len)
    }

    /// Parse a get-config-reply body; bytes after the first 4 are ignored.
    pub fn parse(buffer: &[u8]) -> (r: Result<PacketRepr, Error>)
        ensures
            buffer@.len() < 4 ==> r == Err::<PacketRepr, Error>(Error::Truncated),
            buffer@.len() >= 4 ==> r == Ok::<PacketRepr, Error>(
                PacketRepr {
                    flags: Flags::spec_from_u16(wire::spec_read_u16(buffer@, 0)),
                    miss_send_len: wire::spec_read_u16(buffer@, 2),
                },
            ),
    {
        let packet = match Packet::new_checked(buffer) {
            Ok(p) => p,
            Err(e) => {
                return Err(e);
            },
        };
        Ok(PacketRepr { flags: packet.flags(), miss_send_len: packet.miss_send_len() })
    }

    /// The length of the body this representation emits: always 4 bytes.
    pub fn buffer_len(&self) -> (r: usize)
        ensures
            r == self.spec_wire().len(),
            r == 4,
    {
        4
    }

    /// Emit this body at the start of `buffer`.
    pub fn emit(&self, buffer: &mut [u8]) -> (r: Result<(), Error>)
        ensures
            final(buffer)@.len() == old(buffer)@.len(),
            self.spec_wire().len() <= old(buffer)@.len() ==> (r matches Ok(()))
                && final(buffer)@ == wire::splice(old(buffer)@, 0, self.spec_wire()),
            self.spec_wire().len() > old(buffer)@.len() ==> (r matches Err(e)
                && e == Error::Exhausted) && final(buffer)@ == old(buffer)@,
    {
        self.emit_at(buffer, 0)
    }

    /// Emit this body into `buffer` at `offset`.
    pub fn emit_at(&self, buffer: &mut [u8], offset: usize) -> (r: Result<(), Error>)
        ensures
            final(buffer)@.len() == old(buffer)@.len(),
            offset + self.spec_wire().len() <= old(buffer)@.len() ==> (r matches Ok(()))
                && final(buffer)@ == wire::splice(old(buffer)@, offset as int, self.spec_wire()),
            offset + self.spec_wire().len() > old(buffer)@.len() ==> (r matches Err(e)
                && e == Error::Exhausted) && final(buffer)@ == old(buffer)@,
    {
        if !wire::fits(buffer.len(), offset, 4) {
            return Err(Error::Exhausted);
        }
        wire::write_u16_at(buffer, offset, self.flags.to_u16());
        wire::write_u16_at(buffer, offset + 2, self.miss_send_len);
        proof {
            wire::lemma_splice_adjacent(old(buffer)@, offset as int, wire::spec_u16_be(
                self.flags.spec_to_u16(),
            ), wire::spec_u16_be(self.miss_send_len));
        }
        Ok(())
    }
}

impl Repr for PacketRepr {
    open spec fn wf(&self) -> bool {
        true
    }

    open spec fn wire(&self) -> Seq<u8> {
        self.spec_wire()
    }

    fn parse(buffer: &[u8]) -> (r: Result<Self, Error>) {
        PacketRepr::parse(buffer)
    }

    fn buffer_len(&self) -> (r: usize) {
        PacketRepr::buffer_len(self)
    }

    fn emit(&self, buffer: &mut [u8]) -> (r: Result<(), Error>) {
        PacketRepr::emit(self, buffer)
    }

    fn emit_at(&self, buffer: &mut [u8], offset: usize) -> (r: Result<(), Error>) {
        PacketRepr::emit_at(self, buffer, offset)
    }
}

} // verus!
