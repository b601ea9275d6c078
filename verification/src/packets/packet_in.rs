//! The packet-in message body: the frame that triggered the message and
//! the pipeline context it arrived with.
//!
//! ```text
//!  0      7        15       23       31
//! +--------+--------+--------+--------+
//! |           buffer id               |
//! +--------+--------+--------+--------+
//! |  frame length   | reason |table_id|
//! +--------+--------+--------+--------+
//! |               cookie              |
//! |                                   |
//! +--------+--------+--------+--------+
//! |       flow match fields           |
//! | (variable length, 8-byte aligned) |
//! +--------+--------+--------+--------+
//! |     padding     |      frame      |
//! +--------+--------+                 +
//! |       (variable length)           |
//! +--------+--------+--------+--------+
//! ```

use vstd::prelude::*;

pub mod field;

use crate::oxm::flow_match::field::spec_round8;
use crate::oxm::FlowMatch;
use crate::wire;
use crate::Error;
use crate::Repr;

verus! {

/// Which context triggered a packet-in message.
#[derive(Debug, PartialEq, Eq, Clone, Copy)]
pub enum Reason {
    /// No matching flow: the table-miss flow entry.
    TableMiss,
    /// Output to controller in apply-actions.
    ApplyAction,
    /// Packet has invalid TTL.
    InvalidTtl,
    /// Output to controller in the action set.
    ActionSet,
    /// Output to controller in a group bucket.
    Group,
    /// Output to controller in packet-out.
    PacketOut,
    /// Any other wire value.
    _Unknown(u8),
}

impl Reason {
    pub open spec fn spec_from_u8(value: u8) -> Self {
        if value == 0 {
            Reason::TableMiss
        } else if value == 1 {
            Reason::ApplyAction
        } else if value == 2 {
            Reason::InvalidTtl
        } else if value == 3 {
            Reason::ActionSet
        } else if value == 4 {
            Reason::Group
        } else if value == 5 {
            Reason::PacketOut
        } else {
            Reason::_Unknown(value)
        }
    }

    pub open spec fn spec_to_u8(self) -> u8 {
        match self {
            Reason::TableMiss => 0u8,
            Reason::ApplyAction => 1u8,
            Reason::InvalidTtl => 2u8,
            Reason::ActionSet => 3u8,
            Reason::Group => 4u8,
            Reason::PacketOut => 5u8,
            Reason::_Unknown(v) => v,
        }
    }

    /// The reason designated by a wire byte.
    pub fn from_u8(value: u8) -> (r: Self)
        ensures
            r == Reason::spec_from_u8(value),
    {
        match value {
            0 => Reason::TableMiss,
            1 => Reason::ApplyAction,
            2 => Reason::InvalidTtl,
            3 => Reason::ActionSet,
            4 => Reason::Group,
            5 => Reason::PacketOut,
            v => Reason::_Unknown(v),
        }
    }

    /// The wire byte of this reason.
    pub fn to_u8(self) -> (r: u8)
        ensures
            r == self.spec_to_u8(),
    {
        match self {
            Reason::TableMiss => 0,
            Reason::ApplyAction => 1,
            Reason::InvalidTtl => 2,
            Reason::ActionSet => 3,
            Reason::Group => 4,
            Reason::PacketOut => 5,
            Reason::_Unknown(v) => v,
        }
    }
}

/// A wrapper to read a packet-in body from a buffer.
#[derive(Debug, Clone)]
pub struct Packet<'a> {
    buffer: &'a [u8],
}

impl<'a> Packet<'a> {
    /// The wrapped bytes.
    pub closed spec fn bytes(&self) -> Seq<u8> {
        self.buffer@
    }

    pub fn new(buffer: &'a [u8]) -> (r: Self)
        ensures
            r.bytes() == buffer@,
    {
        Packet { buffer }
    }

    /// Check that the buffer holds the fixed header, a flow match of the
    /// given length and the two padding bytes.
    pub fn check_len(&self, flow_match_len: usize) -> (r: Result<(), Error>)
        requires
            flow_match_len + 18 <= usize::MAX,
        ensures
            self.bytes().len() >= 18 + flow_match_len ==> r is Ok,
            self.bytes().len() < 18 + flow_match_len ==> r == Err::<(), Error>(Error::Exhausted),
    {
        if self.buffer.len() < 18 + flow_match_len {
            return Err(Error::Exhausted);
        }
        Ok(())
    }

    /// Consume the packet, returning the underlying buffer.
    pub fn into_inner(self) -> (r: &'a [u8])
        ensures
            r@ == self.bytes(),
    {
        self.buffer
    }

    /// Return the `buffer_id` field.
    pub fn buffer_id(&self) -> (r: u32)
        requires
            self.bytes().len() >= 16,
        ensures
            r == wire::spec_read_u32(self.bytes(), 0),
    {
        wire::read_u32_at(self.buffer, 0)
    }

    /// Return the `frame_length` field.
    pub fn frame_length(&self) -> (r: u16)
        requires
            self.bytes().len() >= 16,
        ensures
            r == wire::spec_read_u16(self.bytes(), 4),
    {
        wire::read_u16_at(self.buffer, 4)
    }

    /// Return the `reason` field.
    pub fn reason(&self) -> (r: Reason)
        requires
            self.bytes().len() >= 16,
        ensures
            r == Reason::spec_from_u8(self.bytes()[6]),
    {
        Reason::from_u8(self.buffer[6])
    }

    /// Return the `table_id` field.
    pub fn table_id(&self) -> (r: u8)
        requires
            self.bytes().len() >= 16,
        ensures
            r == self.bytes()[7],
    {
        self.buffer[7]
    }

    /// Return the `cookie` field.
    pub fn cookie(&self) -> (r: u64)
        requires
            self.bytes().len() >= 16,
        ensures
            r == wire::spec_read_u64(self.bytes(), 8),
    {
        wire::read_u64_at(self.buffer, 8)
    }

    /// Return everything after the cookie: the flow match, the padding and
    /// the frame.
    pub fn flow_match_and_after(&self) -> (r: &'a [u8])
        requires
            self.bytes().len() >= 16,
        ensures
            r@ == self.bytes().subrange(16, self.bytes().len() as int),
    {
        vstd::slice::slice_subrange(self.buffer, 16, self.buffer.len())
    }

    /// Return the flow match bytes, given the flow match length.
    pub fn flow_match(&self, flow_match_len: usize) -> (r: &'a [u8])
        requires
            16 + flow_match_len <= self.bytes().len(),
        ensures
            r@ == self.bytes().subrange(16, 16 + flow_match_len),
    {
        let blen = self.buffer.len();
        vstd::slice::slice_subrange(self.buffer, 16, 16 + flow_match_len)
    }

    /// Return the two padding bytes after the flow match.
    pub fn padding(&self, flow_match_len: usize) -> (r: &'a [u8])
        requires
            18 + flow_match_len <= self.bytes().len(),
        ensures
            r@ == self.bytes().subrange(16 + flow_match_len, 18 + flow_match_len),
    {
        let blen = self.buffer.len();
        vstd::slice::slice_subrange(self.buffer, 16 + flow_match_len, 18 + flow_match_len)
    }

    /// Return the frame after the flow match and the padding.
    pub fn frame(&self, flow_match_len: usize) -> (r: &'a [u8])
        requires
            18 + flow_match_len <= self.bytes().len(),
        ensures
            r@ == self.bytes().subrange(18 + flow_match_len, self.bytes().len() as int),
    {
        let blen = self.buffer.len();
        vstd::slice::slice_subrange(self.buffer, 18 + flow_match_len, blen)
    }

    /// Write the `buffer_id` field of the body starting at `buf[0]`.
    pub fn set_buffer_id(buf: &mut [u8], value: u32)
        requires
            old(buf)@.len() >= 16,
        ensures
            final(buf)@ == wire::splice(old(buf)@, 0, wire::spec_u32_be(value)),
    {
        wire::write_u32_at(buf, 0, value);
    }

    /// Write the `frame_length` field of the body starting at `buf[0]`.
    pub fn set_frame_length(buf: &mut [u8], value: u16)
        requires
            old(buf)@.len() >= 16,
        ensures
            final(buf)@ == wire::splice(old(buf)@, 4, wire::spec_u16_be(value)),
    {
        wire::write_u16_at(buf, 4, value);
    }

    /// Write the `reason` field of the body starting at `buf[0]`.
    pub fn set_reason(buf: &mut [u8], value: Reason)
        requires
            old(buf)@.len() >= 16,
        ensures
            final(buf)@ == old(buf)@.update(6, value.spec_to_u8()),
    {
        buf[6] = value.to_u8();
    }

    /// Write the `table_id` field of the body starting at `buf[0]`.
    pub fn set_table_id(buf: &mut [u8], value: u8)
        requires
            old(buf)@.len() >= 16,
        ensures
            final(buf)@ == old(buf)@.update(7, value),
    {
        buf[7] = value;
    }

    /// Write the `cookie` field of the body starting at `buf[0]`.
    pub fn set_cookie(buf: &mut [u8], value: u64)
        requires
            old(buf)@.len() >= 16,
        ensures
            final(buf)@ == wire::splice(old(buf)@, 8, wire::spec_u64_be(value)),
    {
        wire::write_u64_at(buf, 8, value);
    }

    /// Copy pre-built flow match bytes into the body starting at `buf[0]`.
    pub fn set_flow_match(buf: &mut [u8], value: &[u8])
        requires
            16 + value@.len() <= old(buf)@.len(),
        ensures
            final(buf)@ == wire::splice(old(buf)@, 16, value@),
    {
        wire::write_bytes_at(buf, 16, value);
    }

    /// Zero the two padding bytes after a flow match of the given length.
    pub fn set_padding(buf: &mut [u8], flow_match_len: usize)
        requires
            18 + flow_match_len <= old(buf)@.len(),
        ensures
            final(buf)@ == wire::splice(old(buf)@, 16 + flow_match_len, seq![0u8, 0u8]),
    {
        let blen = buf.len();
        wire::write_u8_at(buf, 16 + flow_match_len, 0);
        wire::write_u8_at(buf, 16 + flow_match_len + 1, 0);
        proof {
            wire::lemma_splice_adjacent(old(buf)@, 16 + flow_match_len as int, seq![0u8],
                seq![0u8]);
            assert(seq![0u8] + seq![0u8] =~= seq![0u8, 0u8]);
        }
    }

    /// Copy the frame after a flow match of the given length and the two
    /// padding bytes.
    pub fn set_frame(buf: &mut [u8], flow_match_len: usize, value: &[u8])
        requires
            18 + flow_match_len + value@.len() <= old(buf)@.len(),
        ensures
            final(buf)@ == wire::splice(old(buf)@, 18 + flow_match_len, value@),
    {
        let blen = buf.len();
        wire::write_bytes_at(buf, 18 + flow_match_len, value);
    }
}

/// The high-level representation of a packet-in body.
#[derive(Debug, PartialEq, Eq, Clone)]
pub struct PacketRepr<E> {
    /// Opaque value the datapath uses to identify a buffered packet.
    pub buffer_id: u32,
    /// Full length of the packet that triggered this message, before any
    /// truncation due to buffering.
    pub frame_length: u16,
    /// Which context triggered this message.
    pub reason: Reason,
    /// The table that was being looked up.
    pub table_id: u8,
    /// Cookie of the flow entry that caused the packet to be sent, or
    /// all-ones when none can be associated.
    pub cookie: u64,
    /// The pipeline fields associated with the packet, as OXM TLVs.
    pub flow_match: FlowMatch<E>,
    /// The (possibly truncated) frame that triggered this message.
    pub frame: Vec<u8>,
}

impl<E: Repr> PacketRepr<E> {
    /// The flow match is well formed and the emitted body is addressable.
    pub open spec fn spec_wf(&self) -> bool {
        &&& self.flow_match.spec_wf()
        &&& 18 + self.flow_match.spec_wire().len() + self.frame@.len() <= usize::MAX
    }

    /// The exact bytes this body emits: the fixed 16-byte header, the flow
    /// match, two zero padding bytes, then the frame.
    pub open spec fn spec_wire(&self) -> Seq<u8> {
        wire::spec_u32_be(self.buffer_id) + wire::spec_u16_be(self.frame_length) + seq![
            self.reason.spec_to_u8(),
            self.table_id,
        ] + wire::spec_u64_be(self.cookie) + self.flow_match.spec_wire() + seq![0u8, 0u8]
            + self.frame@
    }

    /// Whether `m` is what parsing the body `b` yields.  When the flow
    /// match region holds an experimenter entry the flow match itself is
    /// unconstrained here: its outcome belongs to `E`.
    pub open spec fn spec_matches(m: &PacketRepr<E>, b: Seq<u8>) -> bool {
        &&& b.len() >= 18
        &&& m.buffer_id == wire::spec_read_u32(b, 0)
        &&& m.frame_length == wire::spec_read_u16(b, 4)
        &&& m.reason == Reason::spec_from_u8(b[6])
        &&& m.table_id == b[7]
        &&& m.cookie == wire::spec_read_u64(b, 8)
        &&& (match FlowMatch::<E>::spec_parse(b.subrange(16, b.len() as int)) {
            Some(rr) => rr matches Ok(s) && m.flow_match.0@ == s && ({
                let fm_len = spec_round8(4 + FlowMatch::<E>::spec_fields_len(s));
                b.len() >= 18 + fm_len && m.frame@ == b.subrange(18 + fm_len, b.len() as int)
            }),
            None => true,
        })
    }

    /// Parse a packet-in body: the flow match delimits itself, two padding
    /// bytes follow it, and the rest is the frame.
    pub fn parse(buffer: &[u8]) -> (r: Result<PacketRepr<E>, Error>)
        ensures
            buffer@.len() < 18 ==> r == Err::<PacketRepr<E>, Error>(Error::Exhausted),
            buffer@.len() >= 18 ==> (match FlowMatch::<E>::spec_parse(
                buffer@.subrange(16, buffer@.len() as int),
            ) {
                Some(rr) => (match rr {
                    Err(e) => r == Err::<PacketRepr<E>, Error>(e),
                    Ok(s) => (if buffer@.len() < 18 + spec_round8(
                        4 + FlowMatch::<E>::spec_fields_len(s),
                    ) {
                        r == Err::<PacketRepr<E>, Error>(Error::Exhausted)
                    } else {
                        r matches Ok(m) && Self::spec_matches(&m, buffer@)
                    }),
                }),
                None => true,
            }),
            r matches Ok(m) ==> m.spec_wf() && Self::spec_matches(&m, buffer@)
                && m.spec_wire().len() == buffer@.len(),
    {
        let blen = buffer.len();
        if blen < 18 {
            return Err(Error::Exhausted);
        }
        let packet = Packet::new(buffer);
        let flow_match = match FlowMatch::<E>::parse(packet.flow_match_and_after()) {
            Ok(m) => m,
            Err(e) => {
                return Err(e);
            },
        };
        let flow_match_len = flow_match.buffer_len();
        match packet.check_len(flow_match_len) {
            Ok(()) => (),
            Err(e) => {
                return Err(e);
            },
        }
        let frame = vstd::slice::slice_to_vec(packet.frame(flow_match_len));
        Ok(
            PacketRepr {
                buffer_id: packet.buffer_id(),
                frame_length: packet.frame_length(),
                table_id: packet.table_id(),
                cookie: packet.cookie(),
                reason: packet.reason(),
                flow_match,
                frame,
            },
        )
    }

    /// The length of the body this representation emits: the 16-byte
    /// header, the flow match, 2 padding bytes and the frame.
    pub fn buffer_len(&self) -> (r: usize)
        requires
            self.spec_wf(),
        ensures
            r == self.spec_wire().len(),
    {
        16 + self.flow_match.buffer_len() + 2 + self.frame.len()
    }

    /// Emit this body at the start of `buffer`.
    pub fn emit(&self, buffer: &mut [u8]) -> (r: Result<(), Error>)
        requires
            self.spec_wf(),
        ensures
            final(buffer)@.len() == old(buffer)@.len(),
            self.spec_wire().len() <= old(buffer)@.len() ==> (r matches Ok(()))
                && final(buffer)@ == wire::splice(old(buffer)@, 0, self.spec_wire()),
            self.spec_wire().len() > old(buffer)@.len() ==> (r matches Err(e)
                && e == Error::Exhausted) && final(buffer)@ == old(buffer)@,
    {
        self.emit_at(buffer, 0)
    }

    /// Emit this body into `buffer` at `offset`.
    pub fn emit_at(&self, buffer: &mut [u8], offset: usize) -> (r: Result<(), Error>)
        requires
            self.spec_wf(),
        ensures
            final(buffer)@.len() == old(buffer)@.len(),
            offset + self.spec_wire().len() <= old(buffer)@.len() ==> (r matches Ok(()))
                && final(buffer)@ == wire::splice(old(buffer)@, offset as int, self.spec_wire()),
            offset + self.spec_wire().len() > old(buffer)@.len() ==> (r matches Err(e)
                && e == Error::Exhausted) && final(buffer)@ == old(buffer)@,
    {
        let n = self.buffer_len();
        if !wire::fits(buffer.len(), offset, n) {
            return Err(Error::Exhausted);
        }
        let fm_len = self.flow_match.buffer_len();
        wire::write_u32_at(buffer, offset, self.buffer_id);
        wire::write_u16_at(buffer, offset + 4, self.frame_length);
        wire::write_u8_at(buffer, offset + 6, self.reason.to_u8());
        wire::write_u8_at(buffer, offset + 7, self.table_id);
        wire::write_u64_at(buffer, offset + 8, self.cookie);
        match self.flow_match.emit_at(buffer, offset + 16) {
            Ok(()) => (),
            Err(e) => {
                proof {
                    assert(false);
                }
                return Err(e);
            },
        }
        wire::write_u8_at(buffer, offset + 16 + fm_len, 0);
        wire::write_u8_at(buffer, offset + 16 + fm_len + 1, 0);
        wire::write_bytes_at(buffer, offset + 18 + fm_len, self.frame.as_slice());
        proof {
            let o = old(buffer)@;
            let voff = offset as int;
            let w0 = wire::spec_u32_be(self.buffer_id);
            let w1 = wire::spec_u16_be(self.frame_length);
            let w2 = seq![self.reason.spec_to_u8()];
            let w3 = seq![self.table_id];
            let w4 = wire::spec_u64_be(self.cookie);
            let w5 = self.flow_match.spec_wire();
            wire::lemma_splice_adjacent(o, voff, w0, w1);
            wire::lemma_splice_adjacent(o, voff, w0 + w1, w2);
            wire::lemma_splice_adjacent(o, voff, w0 + w1 + w2, w3);
            wire::lemma_splice_adjacent(o, voff, w0 + w1 + w2 + w3, w4);
            wire::lemma_splice_adjacent(o, voff, w0 + w1 + w2 + w3 + w4, w5);
            wire::lemma_splice_adjacent(o, voff, w0 + w1 + w2 + w3 + w4 + w5, seq![0u8]);
            wire::lemma_splice_adjacent(o, voff, w0 + w1 + w2 + w3 + w4 + w5 + seq![0u8],
                seq![0u8]);
            wire::lemma_splice_adjacent(o, voff,
                w0 + w1 + w2 + w3 + w4 + w5 + seq![0u8] + seq![0u8], self.frame@);
            assert(w0 + w1 + w2 + w3 + w4 + w5 + seq![0u8] + seq![0u8] + self.frame@
                =~= self.spec_wire());
        }
        Ok(())
    }
}

impl<E: Repr> Repr for PacketRepr<E> {
    open spec fn wf(&self) -> bool {
        self.spec_wf()
    }

    open spec fn wire(&self) -> Seq<u8> {
        self.spec_wire()
    }

    fn parse(buffer: &[u8]) -> (r: Result<Self, Error>) {
        PacketRepr::<E>::parse(buffer)
    }

    fn buffer_len(&self) -> (r: usize) {
        PacketRepr::<E>::buffer_len(self)
    }

    fn emit(&self, buffer: &mut [u8]) -> (r: Result<(), Error>) {
        PacketRepr::<E>::emit(self, buffer)
    }

    fn emit_at(&self, buffer: &mut [u8], offset: usize) -> (r: Result<(), Error>) {
        PacketRepr::<E>::emit_at(self, buffer, offset)
    }
}

} // verus!
