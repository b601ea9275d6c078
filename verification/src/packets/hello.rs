//! Types to parse and emit hello messages: a sequence of hello elements,
//! back to back, with no framing of its own.

use vstd::prelude::*;

pub mod bitmap;
pub mod element;

pub use bitmap::{Bitmap, BitmapIterator, BitmapRepr};
pub use element::{Element, ElementData, ElementRepr, Kind};

use crate::wire;
use crate::Error;
use crate::Repr;

verus! {

/// A wrapper over a buffer holding a hello message: zero or more hello
/// elements, one after another.
#[derive(Debug, Clone)]
pub struct Packet<'a> {
    inner: &'a [u8],
}

impl<'a> Packet<'a> {
    /// The wrapped bytes.
    pub closed spec fn bytes(&self) -> Seq<u8> {
        self.inner@
    }

    /// Imbue a raw octet buffer with hello message structure.
    pub fn new(buffer: &'a [u8]) -> (r: Self)
        ensures
            r.bytes() == buffer@,
    {
        Packet { inner: buffer }
    }

    /// Consume the packet, returning the underlying buffer.
    pub fn into_inner(self) -> (r: &'a [u8])
        ensures
            r@ == self.bytes(),
    {
        self.inner
    }

    /// Return an iterator over the hello elements of this message.
    pub fn iter_elements(&self) -> (r: ElementsIterator<'a>)
        ensures
            r.wf(),
            r.bytes() == self.bytes(),
            r.pos() == 0,
    {
        ElementsIterator { offset: 0, inner: self.inner }
    }

    /// Consume the packet, returning an iterator over its hello elements.
    pub fn into_iter(self) -> (r: ElementsIterator<'a>)
        ensures
            r.wf(),
            r.bytes() == self.bytes(),
            r.pos() == 0,
    {
        ElementsIterator { offset: 0, inner: self.inner }
    }
}

/// An iterator over the hello elements of a hello message.
#[derive(Debug, Clone)]
pub struct ElementsIterator<'a> {
    offset: usize,
    inner: &'a [u8],
}

impl<'a> ElementsIterator<'a> {
    /// The wrapped bytes.
    pub closed spec fn bytes(&self) -> Seq<u8> {
        self.inner@
    }

    /// The position of the next element.
    pub closed spec fn pos(&self) -> int {
        self.offset as int
    }

    /// The position never passes the end of the buffer.
    pub closed spec fn wf(&self) -> bool {
        self.offset <= self.inner@.len()
    }

    /// The next element, delimited by its own length field, or `None` when
    /// the remaining bytes cannot hold one more element.
    pub fn next(&mut self) -> (r: Option<Element<'a>>)
        requires
            old(self).wf(),
        ensures
            final(self).wf(),
            final(self).bytes() == old(self).bytes(),
            r matches Some(el) ==> ({
                let b = old(self).bytes();
                let off = old(self).pos();
                let el_len = wire::spec_read_u16(b, off + 2) as int;
                &&& b.len() - off >= 4
                &&& b.len() - off >= el_len
                &&& el.bytes() == b.subrange(off, off + el_len)
                &&& final(self).pos() == off + el_len
            }),
            r is None ==> *final(self) == *old(self),
    {
        let blen = self.inner.len();
        if blen - self.offset < 4 {
            return None;
        }
        let element_length = wire::read_u16_at(self.inner, self.offset + 2) as usize;
        if blen - self.offset < element_length {
            return None;
        }
        let bytes = vstd::slice::slice_subrange(self.inner, self.offset, self.offset
            + element_length);
        let element = Element::new(bytes);
        self.offset = self.offset + element_length;
        Some(element)
    }
}

/// The high-level representation of a hello message: its elements in order.
#[derive(Debug, PartialEq, Eq, Clone)]
pub struct PacketRepr(pub Vec<ElementRepr>);

impl PacketRepr {
    /// Wrap a list of hello elements.
    pub fn new(elements: Vec<ElementRepr>) -> (r: Self)
        ensures
            r == PacketRepr(elements),
    {
        PacketRepr(elements)
    }

    /// The total length of the emitted elements of `s`.
    pub open spec fn spec_elems_len(s: Seq<ElementRepr>) -> int
        decreases s.len(),
    {
        if s.len() == 0 {
            0
        } else {
            Self::spec_elems_len(s.drop_last()) + s.last().spec_wire().len()
        }
    }

    /// The concatenated bytes of the elements of `s`.
    pub open spec fn spec_elems_bytes(s: Seq<ElementRepr>) -> Seq<u8>
        decreases s.len(),
    {
        if s.len() == 0 {
            Seq::empty()
        } else {
            Self::spec_elems_bytes(s.drop_last()) + s.last().spec_wire()
        }
    }

    /// Every element is well formed and the emitted message is addressable.
    pub open spec fn spec_wf(&self) -> bool {
        &&& forall|i: int| 0 <= i < self.0@.len() ==> (#[trigger] self.0@[i]).spec_wf()
        &&& Self::spec_elems_len(self.0@) <= usize::MAX
    }

    /// The exact bytes this message emits: every element in order.
    pub open spec fn spec_wire(&self) -> Seq<u8> {
        Self::spec_elems_bytes(self.0@)
    }

    /// Whether `s` is what parsing the element region `b` yields: elements
    /// are delimited by their length fields, and too few bytes for one more
    /// element end the list.
    pub open spec fn spec_elems_match(s: Seq<ElementRepr>, b: Seq<u8>) -> bool
        decreases b.len(),
    {
        if b.len() < 4 || b.len() < wire::spec_read_u16(b, 2) {
            s.len() == 0
        } else {
            let el = wire::spec_read_u16(b, 2) as int;
            &&& el >= 4
            &&& s.len() > 0
            &&& ElementRepr::spec_matches(s[0], b.subrange(0, el))
            &&& Self::spec_elems_match(s.skip(1), b.skip(el))
        }
    }

    proof fn lemma_elems_push(s: Seq<ElementRepr>, x: ElementRepr)
        ensures
            Self::spec_elems_len(s.push(x)) == Self::spec_elems_len(s) + x.spec_wire().len(),
            Self::spec_elems_bytes(s.push(x)) == Self::spec_elems_bytes(s) + x.spec_wire(),
    {
        assert(s.push(x).drop_last() =~= s);
        assert(s.push(x).last() == x);
    }

    proof fn lemma_elems_take_step(s: Seq<ElementRepr>, i: int)
        requires
            0 <= i < s.len(),
        ensures
            Self::spec_elems_len(s.take(i + 1)) == Self::spec_elems_len(s.take(i))
                + s[i].spec_wire().len(),
            Self::spec_elems_bytes(s.take(i + 1)) == Self::spec_elems_bytes(s.take(i))
                + s[i].spec_wire(),
    {
        assert(s.take(i + 1).drop_last() =~= s.take(i));
        assert(s.take(i + 1).last() == s[i]);
    }

    proof fn lemma_elems_take_le(s: Seq<ElementRepr>, i: int)
        requires
            0 <= i <= s.len(),
        ensures
            Self::spec_elems_len(s.take(i)) <= Self::spec_elems_len(s),
        decreases s.len() - i,
    {
        if i == s.len() {
            assert(s.take(i) =~= s);
        } else {
            Self::lemma_elems_take_step(s, i);
            Self::lemma_elems_take_le(s, i + 1);
        }
    }

    proof fn lemma_elems_len_nonneg(s: Seq<ElementRepr>)
        ensures
            Self::spec_elems_len(s) >= 0,
        decreases s.len(),
    {
        if s.len() > 0 {
            Self::lemma_elems_len_nonneg(s.drop_last());
        }
    }

    /// The concatenated element bytes are as long as the elements declare.
    pub proof fn lemma_elems_bytes_len(s: Seq<ElementRepr>)
        ensures
            Self::spec_elems_bytes(s).len() == Self::spec_elems_len(s),
        decreases s.len(),
    {
        if s.len() > 0 {
            Self::lemma_elems_bytes_len(s.drop_last());
        }
    }

    /// Parse a hello message: read elements until the remaining bytes
    /// cannot hold one more; an element that fails to parse aborts the
    /// whole message.
    pub fn parse(buffer: &[u8]) -> (r: Result<PacketRepr, Error>)
        ensures
            r matches Ok(m) ==> m.spec_wf() && Self::spec_elems_match(m.0@, buffer@)
                && m.spec_wire().len() <= buffer@.len(),
    {
        let blen = buffer.len();
        let mut elements: Vec<ElementRepr> = Vec::new();
        let mut offset: usize = 0;
        proof {
            assert(buffer@.skip(0) =~= buffer@);
            assert(elements@ + Seq::<ElementRepr>::empty() =~= elements@);
        }
        loop
            invariant_except_break
                blen == buffer@.len(),
                offset <= blen,
                Self::spec_elems_len(elements@) <= offset,
                forall|i: int| 0 <= i < elements@.len() ==> (#[trigger] elements@[i]).spec_wf(),
                forall|t: Seq<ElementRepr>|
                    Self::spec_elems_match(t, buffer@.skip(offset as int)) ==> #[trigger]
                    Self::spec_elems_match(elements@ + t, buffer@),
            ensures
                Self::spec_elems_len(elements@) <= blen,
                blen == buffer@.len(),
                forall|i: int| 0 <= i < elements@.len() ==> (#[trigger] elements@[i]).spec_wf(),
                Self::spec_elems_match(elements@, buffer@),
            decreases blen - offset,
        {
            let remaining = blen - offset;
            if remaining < 4 {
                proof {
                    assert(Self::spec_elems_match(Seq::empty(), buffer@.skip(offset as int)));
                    assert(elements@ + Seq::<ElementRepr>::empty() =~= elements@);
                }
                break;
            }
            let el_len = wire::read_u16_at(buffer, offset + 2) as usize;
            if remaining < el_len {
                proof {
                    assert(Self::spec_elems_match(Seq::empty(), buffer@.skip(offset as int)));
                    assert(elements@ + Seq::<ElementRepr>::empty() =~= elements@);
                }
                break;
            }
            let sub = vstd::slice::slice_subrange(buffer, offset, offset + el_len);
            match ElementRepr::parse(sub) {
                Ok(x) => {
                    proof {
                        Self::lemma_elems_push(elements@, x);
                        let b2 = buffer@.skip(offset as int);
                        assert(sub@ =~= b2.subrange(0, el_len as int));
                        assert(b2.skip(el_len as int) =~= buffer@.skip(offset + el_len));
                        assert forall|t: Seq<ElementRepr>|
                            Self::spec_elems_match(
                                t,
                                buffer@.skip(offset + el_len),
                            ) implies #[trigger] Self::spec_elems_match(
                            elements@.push(x) + t,
                            buffer@,
                        ) by {
                            assert((seq![x] + t)[0] == x);
                            assert((seq![x] + t).skip(1) =~= t);
                            assert(Self::spec_elems_match(seq![x] + t, b2));
                            assert(elements@ + (seq![x] + t) =~= elements@.push(x) + t);
                        }
                    }
                    elements.push(x);
                    offset += el_len;
                },
                Err(e) => {
                    return Err(e);
                },
            }
        }
        proof {
            Self::lemma_elems_len_nonneg(elements@);
            Self::lemma_elems_bytes_len(elements@);
        }
        Ok(PacketRepr::new(elements))
    }

    /// The length of the message this representation emits: the sum of its
    /// elements' lengths.
    pub fn buffer_len(&self) -> (r: usize)
        requires
            self.spec_wf(),
        ensures
            r == self.spec_wire().len(),
    {
        proof {
            Self::lemma_elems_len_nonneg(self.0@);
            Self::lemma_elems_bytes_len(self.0@);
        }
        let n = self.0.len();
        let mut acc: usize = 0;
        let mut i: usize = 0;
        while i < n
            invariant
                self.spec_wf(),
                n == self.0@.len(),
                i <= n,
                acc == Self::spec_elems_len(self.0@.take(i as int)),
                acc <= Self::spec_elems_len(self.0@),
                Self::spec_elems_len(self.0@) <= usize::MAX,
            decreases n - i,
        {
            proof {
                Self::lemma_elems_take_step(self.0@, i as int);
                Self::lemma_elems_take_le(self.0@, i + 1);
            }
            let m = self.0[i].buffer_len();
            acc = acc + m;
            i += 1;
        }
        proof {
            assert(self.0@.take(n as int) =~= self.0@);
        }
        acc
    }

    /// Emit this message at the start of `buffer`.
    pub fn emit(&self, buffer: &mut [u8]) -> (r: Result<(), Error>)
        requires
            self.spec_wf(),
        ensures
            final(buffer)@.len() == old(buffer)@.len(),
            self.spec_wire().len() <= old(buffer)@.len() ==> (r matches Ok(()))
                && final(buffer)@ == wire::splice(old(buffer)@, 0, self.spec_wire()),
            self.spec_wire().len() > old(buffer)@.len() ==> (r matches Err(e)
                && e == Error::Exhausted) && final(buffer)@ == old(buffer)@,
    {
        self.emit_at(buffer, 0)
    }

    /// Emit this message into `buffer` at `offset`: every element in order.
    pub fn emit_at(&self, buffer: &mut [u8], offset: usize) -> (r: Result<(), Error>)
        requires
            self.spec_wf(),
        ensures
            final(buffer)@.len() == old(buffer)@.len(),
            offset + self.spec_wire().len() <= old(buffer)@.len() ==> (r matches Ok(()))
                && final(buffer)@ == wire::splice(old(buffer)@, offset as int, self.spec_wire()),
            offset + self.spec_wire().len() > old(buffer)@.len() ==> (r matches Err(e)
                && e == Error::Exhausted) && final(buffer)@ == old(buffer)@,
    {
        let total = self.buffer_len();
        if !wire::fits(buffer.len(), offset, total) {
            return Err(Error::Exhausted);
        }
        let ghost o = old(buffer)@;
        proof {
            assert(self.0@.take(0) =~= Seq::<ElementRepr>::empty());
            wire::lemma_splice_empty(o, offset as int);
        }
        let n = self.0.len();
        let blen = buffer.len();
        let mut i: usize = 0;
        let mut pos: usize = offset;
        while i < n
            invariant
                self.spec_wf(),
                n == self.0@.len(),
                i <= n,
                o == old(buffer)@,
                offset + self.spec_wire().len() <= o.len(),
                o.len() <= usize::MAX,
                pos == offset + Self::spec_elems_len(self.0@.take(i as int)),
                buffer@.len() == o.len(),
                buffer@ == wire::splice(o, offset as int, Self::spec_elems_bytes(
                    self.0@.take(i as int),
                )),
            decreases n - i,
        {
            proof {
                Self::lemma_elems_take_step(self.0@, i as int);
                Self::lemma_elems_take_le(self.0@, i + 1);
                Self::lemma_elems_bytes_len(self.0@.take(i as int));
                Self::lemma_elems_bytes_len(self.0@);
                assert(pos + self.0@[i as int].spec_wire().len() <= buffer@.len());
            }
            let m = self.0[i].buffer_len();
            match self.0[i].emit_at(buffer, pos) {
                Ok(()) => (),
                Err(e) => {
                    proof {
                        assert(false);
                    }
                    return Err(e);
                },
            }
            proof {
                wire::lemma_splice_adjacent(o, offset as int, Self::spec_elems_bytes(
                    self.0@.take(i as int),
                ), self.0@[i as int].spec_wire());
                assert(Self::spec_elems_bytes(self.0@.take(i as int)) + self.0@[i
                    as int].spec_wire() =~= Self::spec_elems_bytes(self.0@.take(i as int + 1)));
            }
            pos += m;
            i += 1;
        }
        proof {
            assert(self.0@.take(n as int) =~= self.0@);
        }
        Ok(())
    }
}

impl Repr for PacketRepr {
    open spec fn wf(&self) -> bool {
        self.spec_wf()
    }

    open spec fn wire(&self) -> Seq<u8> {
        self.spec_wire()
    }

    fn parse(buffer: &[u8]) -> (r: Result<Self, Error>) {
        PacketRepr::parse(buffer)
    }

    fn buffer_len(&self) -> (r: usize) {
        PacketRepr::buffer_len(self)
    }

    fn emit(&self, buffer: &mut [u8]) -> (r: Result<(), Error>) {
        PacketRepr::emit(self, buffer)
    }

    fn emit_at(&self, buffer: &mut [u8], offset: usize) -> (r: Result<(), Error>) {
        PacketRepr::emit_at(self, buffer, offset)
    }
}

} // verus!
