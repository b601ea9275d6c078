//! Hello message elements: TLVs whose length field counts the whole
//! element, header included.
//!
//! ```text
//! +--------+--------+--------+--------+
//! |     type        |      length     |
//! +--------+--------+--------+--------+
//! |              payload              |
//! +--------+--------+--------+--------+
//! ```

use vstd::prelude::*;

use crate::packets::hello::bitmap::{Bitmap, BitmapRepr};
use crate::wire;
use crate::Error;
use crate::Repr;

verus! {

/// The type of the payload of a hello element.
#[derive(Debug, PartialEq, Eq, Clone, Copy)]
pub enum Kind {
    /// A version bitmap: the set of OpenFlow versions the endpoint
    /// supports, indexed by version number.
    Bitmap,
    /// Any other wire value.
    _Unknown(u16),
}

impl Kind {
    pub open spec fn spec_from_u16(value: u16) -> Self {
        if value == 1 {
            Kind::Bitmap
        } else {
            Kind::_Unknown(value)
        }
    }

    pub open spec fn spec_to_u16(self) -> u16 {
        match self {
            Kind::Bitmap => 1u16,
            Kind::_Unknown(k) => k,
        }
    }

    /// The element type designated by a 16-bit wire value.
    pub fn from_u16(value: u16) -> (r: Self)
        ensures
            r == Kind::spec_from_u16(value),
    {
        match value {
            1 => Kind::Bitmap,
            k => Kind::_Unknown(k),
        }
    }

    /// The 16-bit wire value of this element type.
    pub fn to_u16(self) -> (r: u16)
        ensures
            r == self.spec_to_u16(),
    {
        match self {
            Kind::Bitmap => 1,
            Kind::_Unknown(k) => k,
        }
    }
}

/// A wrapper to read one hello element from a buffer.
#[derive(Debug, Clone)]
pub struct Element<'a> {
    /// The wrapped buffer.
    pub inner: &'a [u8],
}

impl<'a> Element<'a> {
    /// The wrapped bytes.
    pub open spec fn bytes(&self) -> Seq<u8> {
        self.inner@
    }

    /// Imbue a raw octet buffer with hello element structure.
    pub fn new(buffer: &'a [u8]) -> (r: Self)
        ensures
            r.bytes() == buffer@,
    {
        Element { inner: buffer }
    }

    /// Return a reader after checking that the buffer holds the element its
    /// length field declares.
    pub fn new_checked(buffer: &'a [u8]) -> (r: Result<Self, Error>)
        ensures
            buffer@.len() >= 4 && buffer@.len() >= wire::spec_read_u16(buffer@, 2) ==> (
            r matches Ok(p) && p.bytes() == buffer@),
            buffer@.len() < 4 || buffer@.len() < wire::spec_read_u16(buffer@, 2) ==> r == Err::<
                Self,
                Error,
            >(Error::Truncated),
    {
        let buf = Element { inner: buffer };
        match buf.check_len() {
            Ok(()) => Ok(buf),
            Err(e) => Err(e),
        }
    }

    /// Check that the buffer holds the element its length field declares.
    pub fn check_len(&self) -> (r: Result<(), Error>)
        ensures
            self.bytes().len() >= 4 && self.bytes().len() >= wire::spec_read_u16(self.bytes(), 2)
                ==> r is Ok,
            self.bytes().len() < 4 || self.bytes().len() < wire::spec_read_u16(self.bytes(), 2)
                ==> r == Err::<(), Error>(Error::Truncated),
    {
        let len = self.inner.len();
        if len < 4 {
            return Err(Error::Truncated);
        }
        if len < self.length() as usize {
            return Err(Error::Truncated);
        }
        Ok(())
    }

    /// Return the length field: the whole element, header included.
    pub fn length(&self) -> (r: u16)
        requires
            self.bytes().len() >= 4,
        ensures
            r == wire::spec_read_u16(self.bytes(), 2),
    {
        wire::read_u16_at(self.inner, 2)
    }

    /// Return the type field.
    pub fn kind(&self) -> (r: Kind)
        requires
            self.bytes().len() >= 4,
        ensures
            r == Kind::spec_from_u16(wire::spec_read_u16(self.bytes(), 0)),
    {
        Kind::from_u16(wire::read_u16_at(self.inner, 0))
    }

    /// Consume the element, returning the underlying buffer.
    pub fn into_inner(self) -> (r: &'a [u8])
        ensures
            r@ == self.bytes(),
    {
        self.inner
    }

    /// Return the payload: everything after the 4-byte header.
    pub fn payload(&self) -> (r: &'a [u8])
        requires
            self.bytes().len() >= 4,
        ensures
            r@ == self.bytes().subrange(4, self.bytes().len() as int),
    {
        vstd::slice::slice_subrange(self.inner, 4, self.inner.len())
    }

    /// Write the type field of the element starting at `buf[0]`.
    pub fn set_kind(buf: &mut [u8], value: Kind)
        requires
            old(buf)@.len() >= 4,
        ensures
            final(buf)@ == wire::splice(old(buf)@, 0, wire::spec_u16_be(value.spec_to_u16())),
    {
        wire::write_u16_at(buf, 0, value.to_u16());
    }

    /// Write the length field of the element starting at `buf[0]`.
    pub fn set_length(buf: &mut [u8], value: u16)
        requires
            old(buf)@.len() >= 4,
        ensures
            final(buf)@ == wire::splice(old(buf)@, 2, wire::spec_u16_be(value)),
    {
        wire::write_u16_at(buf, 2, value);
    }
}

/// The payload of a hello element.
#[derive(Debug, PartialEq, Eq, Clone)]
pub enum ElementData {
    /// A version bitmap payload.
    Bitmap(BitmapRepr),
    /// A payload of a kind this crate does not interpret.
    Unknown(Vec<u8>),
}

impl ElementData {
    /// The payload bytes.
    pub open spec fn spec_bytes(&self) -> Seq<u8> {
        match self {
            ElementData::Bitmap(b) => wire::spec_u32_be(b.0),
            ElementData::Unknown(v) => v@,
        }
    }

    /// The payload length in bytes.
    pub fn length(&self) -> (r: usize)
        ensures
            r == self.spec_bytes().len(),
    {
        match self {
            ElementData::Bitmap(_) => 4,
            ElementData::Unknown(bytes) => bytes.len(),
        }
    }

    /// Write the payload bytes into `buf` at `offset`.
    pub fn emit(&self, buf: &mut [u8], offset: usize)
        requires
            offset + self.spec_bytes().len() <= old(buf)@.len(),
        ensures
            final(buf)@ == wire::splice(old(buf)@, offset as int, self.spec_bytes()),
    {
        match self {
            ElementData::Bitmap(bitmap) => bitmap.emit(buf, offset),
            ElementData::Unknown(bytes) => wire::write_bytes_at(buf, offset, bytes.as_slice()),
        }
    }
}

/// One hello element; several of them form a hello message.
#[derive(Debug, PartialEq, Eq, Clone)]
pub struct ElementRepr {
    /// The element type.
    pub kind: Kind,
    /// The element payload.
    pub payload: ElementData,
}

impl ElementRepr {
    /// The emitted element is addressable; a payload longer than the
    /// 16-bit length field can carry is truncated in that field alone.
    pub open spec fn spec_wf(&self) -> bool {
        4 + self.payload.spec_bytes().len() <= usize::MAX
    }

    /// The exact bytes this element emits: type, whole-element length, then
    /// the payload.
    pub open spec fn spec_wire(&self) -> Seq<u8> {
        wire::spec_u16_be(self.kind.spec_to_u16()) + wire::spec_u16_be(
            (4 + self.payload.spec_bytes().len()) as u16,
        ) + self.payload.spec_bytes()
    }

    /// Whether `x` is what parsing the element TLV `b` yields.
    pub open spec fn spec_matches(x: ElementRepr, b: Seq<u8>) -> bool {
        let k = wire::spec_read_u16(b, 0);
        if k == 1 {
            b.len() >= 8 && x == (ElementRepr {
                kind: Kind::Bitmap,
                payload: ElementData::Bitmap(BitmapRepr(wire::spec_read_u32(b, 4))),
            })
        } else {
            &&& b.len() >= 4
            &&& x.kind == Kind::spec_from_u16(k)
            &&& x.payload matches ElementData::Unknown(v) && v@ == b.subrange(4, b.len() as int)
        }
    }

    /// Parse one hello element: a bitmap payload is decoded, any other type
    /// is kept as raw bytes.
    pub fn parse(buffer: &[u8]) -> (r: Result<ElementRepr, Error>)
        ensures
            buffer@.len() < 4 || buffer@.len() < wire::spec_read_u16(buffer@, 2) ==> r == Err::<
                ElementRepr,
                Error,
            >(Error::Truncated),
            buffer@.len() >= 4 && buffer@.len() >= wire::spec_read_u16(buffer@, 2) ==> (
            if wire::spec_read_u16(buffer@, 0) == 1 && buffer@.len() < 8 {
                r == Err::<ElementRepr, Error>(Error::Truncated)
            } else {
                r matches Ok(x) && Self::spec_matches(x, buffer@)
            }),
            r matches Ok(x) ==> x.spec_wf() && x.spec_wire().len() <= buffer@.len(),
    {
        let blen = buffer.len();
        let packet = match Element::new_checked(buffer) {
            Ok(p) => p,
            Err(e) => {
                return Err(e);
            },
        };
        let kind = packet.kind();
        let payload = match kind {
            Kind::Bitmap => {
                if blen < 8 {
                    return Err(Error::Truncated);
                }
                let bitmap_buf = Bitmap::new(packet.payload());
                let bitmap_repr = match BitmapRepr::parse(&bitmap_buf) {
                    Ok(b) => b,
                    Err(e) => {
                        return Err(e);
                    },
                };
                ElementData::Bitmap(bitmap_repr)
            },
            _ => ElementData::Unknown(vstd::slice::slice_to_vec(packet.payload())),
        };
        Ok(ElementRepr { kind, payload })
    }

    /// The length of the element this representation emits.
    pub fn buffer_len(&self) -> (r: usize)
        requires
            self.spec_wf(),
        ensures
            r == self.spec_wire().len(),
    {
        self.payload.length() + 4
    }

    /// Emit this element at the start of `buffer`.
    pub fn emit(&self, buffer: &mut [u8]) -> (r: Result<(), Error>)
        requires
            self.spec_wf(),
        ensures
            final(buffer)@.len() == old(buffer)@.len(),
            self.spec_wire().len() <= old(buffer)@.len() ==> (r matches Ok(()))
                && final(buffer)@ == wire::splice(old(buffer)@, 0, self.spec_wire()),
            self.spec_wire().len() > old(buffer)@.len() ==> (r matches Err(e)
                && e == Error::Exhausted) && final(buffer)@ == old(buffer)@,
    {
        self.emit_at(buffer, 0)
    }

    /// Emit this element into `buffer` at `offset`.
    pub fn emit_at(&self, buffer: &mut [u8], offset: usize) -> (r: Result<(), Error>)
        requires
            self.spec_wf(),
        ensures
            final(buffer)@.len() == old(buffer)@.len(),
            offset + self.spec_wire().len() <= old(buffer)@.len() ==> (r matches Ok(()))
                && final(buffer)@ == wire::splice(old(buffer)@, offset as int, self.spec_wire()),
            offset + self.spec_wire().len() > old(buffer)@.len() ==> (r matches Err(e)
                && e == Error::Exhausted) && final(buffer)@ == old(buffer)@,
    {
        let n = self.buffer_len();
        if !wire::fits(buffer.len(), offset, n) {
            return Err(Error::Exhausted);
        }
        wire::write_u16_at(buffer, offset, self.kind.to_u16());
        wire::write_u16_at(buffer, offset + 2, n as u16);
        self.payload.emit(buffer, offset + 4);
        proof {
            let o = old(buffer)@;
            let voff = offset as int;
            let w0 = wire::spec_u16_be(self.kind.spec_to_u16());
            let w1 = wire::spec_u16_be((4 + self.payload.spec_bytes().len()) as u16);
            wire::lemma_splice_adjacent(o, voff, w0, w1);
            wire::lemma_splice_adjacent(o, voff, w0 + w1, self.payload.spec_bytes());
        }
        Ok(())
    }
}

impl Repr for ElementRepr {
    open spec fn wf(&self) -> bool {
        self.spec_wf()
    }

    open spec fn wire(&self) -> Seq<u8> {
        self.spec_wire()
    }

    fn parse(buffer: &[u8]) -> (r: Result<Self, Error>) {
        ElementRepr::parse(buffer)
    }

    fn buffer_len(&self) -> (r: usize) {
        ElementRepr::buffer_len(self)
    }

    fn emit(&self, buffer: &mut [u8]) -> (r: Result<(), Error>) {
        ElementRepr::emit(self, buffer)
    }

    fn emit_at(&self, buffer: &mut [u8], offset: usize) -> (r: Result<(), Error>) {
        ElementRepr::emit_at(self, buffer, offset)
    }
}

} // verus!
