//! The flow match aggregate: an ordered list of OXM entries framed by a
//! 4-byte header and padded with zeros to an 8-byte boundary.
//!
//! ```text
//! +---------------+---------------+
//! |   match type  |     length    |
//! +---------------+---------------+
//! |          oxm fields           |
//! |   (variable       +-----------+
//! |     length)       |  padding  |
//! +-------------------+-----------+
//! ```
//!
//! The `match type` must be 1 (OXM); `length` counts the header plus the
//! field bytes, padding excluded; the padding bytes are zero.

use vstd::prelude::*;

pub mod field;

use self::field::spec_round8;
use crate::oxm::Oxm;
use crate::wire;
use crate::Error;
use crate::Repr;

verus! {

/// The match type of a flow match header.
#[allow(non_camel_case_types)]
#[derive(Debug, PartialEq, Eq, Clone, Copy)]
pub enum MatchType {
    /// Deprecated standard match type.
    STANDARD,
    /// OpenFlow eXtensible Match.
    OXM,
    /// Any other wire value.
    Unknown(u16),
}

impl MatchType {
    pub open spec fn spec_from_u16(value: u16) -> Self {
        if value == 0 {
            MatchType::STANDARD
        } else if value == 1 {
            MatchType::OXM
        } else {
            MatchType::Unknown(value)
        }
    }

    /// The match type designated by a 16-bit wire value.
    pub fn from_u16(value: u16) -> (r: Self)
        ensures
            r == MatchType::spec_from_u16(value),
    {
        match value {
            0 => MatchType::STANDARD,
            1 => MatchType::OXM,
            other => MatchType::Unknown(other),
        }
    }
}

/// A wrapper to read the header of a flow match buffer.
#[derive(Debug, Clone)]
pub struct Packet<'a> {
    inner: &'a [u8],
}

impl<'a> Packet<'a> {
    /// The wrapped bytes.
    pub closed spec fn bytes(&self) -> Seq<u8> {
        self.inner@
    }

    /// Return a new flow match reader for the given buffer.
    pub fn new(buf: &'a [u8]) -> (r: Self)
        ensures
            r.bytes() == buf@,
    {
        Packet { inner: buf }
    }

    /// Return the inner buffer.
    pub fn into_inner(self) -> (r: &'a [u8])
        ensures
            r@ == self.bytes(),
    {
        self.inner
    }

    /// Return the `match_type` field.
    pub fn match_type(&self) -> (r: MatchType)
        requires
            self.bytes().len() >= 4,
        ensures
            r == MatchType::spec_from_u16(wire::spec_read_u16(self.bytes(), 0)),
    {
        MatchType::from_u16(wire::read_u16_at(self.inner, 0))
    }

    /// Return the `length` field: the header plus the OXM field bytes,
    /// padding excluded.
    pub fn length(&self) -> (r: u16)
        requires
            self.bytes().len() >= 4,
        ensures
            r == wire::spec_read_u16(self.bytes(), 2),
    {
        wire::read_u16_at(self.inner, 2)
    }
}

/// An ordered list of OXM entries; order is significant and duplicates are
/// kept.  This is the high-level representation of a flow match buffer.
#[derive(Debug, PartialEq, Eq, Clone)]
pub struct PacketRepr<E>(pub Vec<Oxm<E>>);

impl<E: Repr> PacketRepr<E> {
    /// The total length of the TLVs of `s`.
    pub open spec fn spec_fields_len(s: Seq<Oxm<E>>) -> int
        decreases s.len(),
    {
        if s.len() == 0 {
            0
        } else {
            Self::spec_fields_len(s.drop_last()) + s.last().spec_wire().len()
        }
    }

    /// The concatenated TLV bytes of `s`.
    pub open spec fn spec_fields_bytes(s: Seq<Oxm<E>>) -> Seq<u8>
        decreases s.len(),
    {
        if s.len() == 0 {
            Seq::empty()
        } else {
            Self::spec_fields_bytes(s.drop_last()) + s.last().spec_wire()
        }
    }

    /// Every entry is well formed and the declared length fits its 16-bit
    /// wire field.
    pub open spec fn spec_wf(&self) -> bool {
        &&& forall|i: int| 0 <= i < self.0@.len() ==> (#[trigger] self.0@[i]).spec_wf()
        &&& 4 + Self::spec_fields_len(self.0@) <= 0xffff
    }

    /// The emitted length: header plus field bytes, rounded up to 8.
    pub open spec fn spec_total_len(&self) -> int {
        spec_round8(4 + Self::spec_fields_len(self.0@))
    }

    /// The exact bytes this flow match emits: match type 1, the declared
    /// length, every entry's TLV in order, then zero padding up to the next
    /// multiple of 8.
    pub open spec fn spec_wire(&self) -> Seq<u8> {
        let fl = 4 + Self::spec_fields_len(self.0@);
        seq![0x00u8, 0x01u8] + wire::spec_u16_be(fl as u16) + Self::spec_fields_bytes(self.0@)
            + Seq::new((spec_round8(fl) - fl) as nat, |i: int| 0u8)
    }

    /// What parsing the OXM field region yields, element by element: too few
    /// bytes for one more entry end the list; an explicit error aborts the
    /// parse; an experimenter entry makes the outcome depend on `E`
    /// (`None`).
    pub open spec fn spec_parse_list(region: Seq<u8>) -> Option<Result<Seq<Oxm<E>>, Error>>
        decreases region.len(),
    {
        match Oxm::<E>::spec_parse_known(region) {
            None => None,
            Some(rr) => match rr {
                Err(e) => if e == Error::Truncated {
                    Some(Ok(Seq::empty()))
                } else {
                    Some(Err(e))
                },
                Ok(x) => {
                    let n = x.spec_wire().len() as int;
                    if n <= 0 || n > region.len() {
                        Some(Ok(Seq::empty()))
                    } else {
                        match Self::spec_parse_list(region.skip(n)) {
                            None => None,
                            Some(rest) => match rest {
                                Ok(t) => Some(Ok(seq![x] + t)),
                                Err(e) => Some(Err(e)),
                            },
                        }
                    }
                },
            },
        }
    }

    /// What parsing a whole flow match buffer yields; `None` when an
    /// experimenter entry makes the outcome depend on `E`.
    pub open spec fn spec_parse(b: Seq<u8>) -> Option<Result<Seq<Oxm<E>>, Error>> {
        if b.len() < 4 {
            Some(Err(Error::Truncated))
        } else if b.len() < spec_round8(wire::spec_read_u16(b, 2) as int) {
            Some(Err(Error::Truncated))
        } else if wire::spec_read_u16(b, 0) != 1 {
            Some(Err(Error::BadMatchType))
        } else if wire::spec_read_u16(b, 2) < 4 {
            Some(Err(Error::Malformed))
        } else {
            Self::spec_parse_list(b.subrange(4, wire::spec_read_u16(b, 2) as int))
        }
    }

    /// A parsed prefix followed by the outcome of the remaining region.
    pub open spec fn spec_prepend(
        s: Seq<Oxm<E>>,
        rest: Option<Result<Seq<Oxm<E>>, Error>>,
    ) -> Option<Result<Seq<Oxm<E>>, Error>> {
        match rest {
            None => None,
            Some(rr) => match rr {
                Ok(t) => Some(Ok(s + t)),
                Err(e) => Some(Err(e)),
            },
        }
    }

    proof fn lemma_fields_len_nonneg(s: Seq<Oxm<E>>)
        ensures
            Self::spec_fields_len(s) >= 0,
        decreases s.len(),
    {
        if s.len() > 0 {
            Self::lemma_fields_len_nonneg(s.drop_last());
        }
    }

    proof fn lemma_fields_push(s: Seq<Oxm<E>>, x: Oxm<E>)
        ensures
            Self::spec_fields_len(s.push(x)) == Self::spec_fields_len(s) + x.spec_wire().len(),
            Self::spec_fields_bytes(s.push(x)) == Self::spec_fields_bytes(s) + x.spec_wire(),
    {
        assert(s.push(x).drop_last() =~= s);
        assert(s.push(x).last() == x);
    }

    proof fn lemma_fields_take_step(s: Seq<Oxm<E>>, i: int)
        requires
            0 <= i < s.len(),
        ensures
            Self::spec_fields_len(s.take(i + 1)) == Self::spec_fields_len(s.take(i))
                + s[i].spec_wire().len(),
            Self::spec_fields_bytes(s.take(i + 1)) == Self::spec_fields_bytes(s.take(i))
                + s[i].spec_wire(),
    {
        assert(s.take(i + 1).drop_last() =~= s.take(i));
        assert(s.take(i + 1).last() == s[i]);
    }

    proof fn lemma_fields_take_le(s: Seq<Oxm<E>>, i: int)
        requires
            0 <= i <= s.len(),
        ensures
            Self::spec_fields_len(s.take(i)) <= Self::spec_fields_len(s),
        decreases s.len() - i,
    {
        if i == s.len() {
            assert(s.take(i) =~= s);
        } else {
            Self::lemma_fields_take_step(s, i);
            Self::lemma_fields_take_le(s, i + 1);
        }
    }

    /// The concatenated field bytes are as long as the entries declare.
    pub proof fn lemma_fields_bytes_len(s: Seq<Oxm<E>>)
        ensures
            Self::spec_fields_bytes(s).len() == Self::spec_fields_len(s),
        decreases s.len(),
    {
        if s.len() > 0 {
            Self::lemma_fields_bytes_len(s.drop_last());
        }
    }

    /// The sum of the lengths of the OXM entry TLVs.
    pub fn fields_len(&self) -> (r: usize)
        requires
            self.spec_wf(),
        ensures
            r == Self::spec_fields_len(self.0@),
            4 + r <= 0xffff,
    {
        proof {
            Self::lemma_fields_len_nonneg(self.0@);
        }
        let n = self.0.len();
        let mut acc: usize = 0;
        let mut i: usize = 0;
        while i < n
            invariant
                self.spec_wf(),
                n == self.0@.len(),
                i <= n,
                acc == Self::spec_fields_len(self.0@.take(i as int)),
                acc <= Self::spec_fields_len(self.0@),
                4 + Self::spec_fields_len(self.0@) <= 0xffff,
            decreases n - i,
        {
            proof {
                Self::lemma_fields_take_step(self.0@, i as int);
                Self::lemma_fields_take_le(self.0@, i + 1);
            }
            let m = self.0[i].buffer_len();
            acc = acc + m;
            i += 1;
        }
        proof {
            assert(self.0@.take(n as int) =~= self.0@);
        }
        acc
    }

    /// The length of the buffer this flow match emits: always a multiple of
    /// 8, and never less than the header plus every entry's TLV.
    pub fn buffer_len(&self) -> (r: usize)
        requires
            self.spec_wf(),
        ensures
            r == self.spec_wire().len(),
            r == self.spec_total_len(),
            r % 8 == 0,
            r >= 4 + Self::spec_fields_len(self.0@),
    {
        proof {
            Self::lemma_fields_bytes_len(self.0@);
            Self::lemma_fields_len_nonneg(self.0@);
            field::lemma_round8_facts(4 + Self::spec_fields_len(self.0@));
        }
        let fl = 4 + self.fields_len();
        ((fl + 7) / 8) * 8
    }

    /// Parse a flow match buffer: check the framing, then read OXM entries
    /// until the region declared by `length` runs out of room for another
    /// one.
    pub fn parse(buffer: &[u8]) -> (r: Result<PacketRepr<E>, Error>)
        ensures
            Self::spec_parse(buffer@) matches Some(rr) ==> (match rr {
                Ok(s) => r matches Ok(m) && m.0@ == s,
                Err(e) => r == Err::<PacketRepr<E>, Error>(e),
            }),
            r matches Ok(m) ==> m.spec_wf() && m.spec_wire().len() <= buffer@.len(),
    {
        let blen = buffer.len();
        if blen < 4 {
            return Err(Error::Truncated);
        }
        let lenf = wire::read_u16_at(buffer, 2) as usize;
        let rounded = ((lenf + 7) / 8) * 8;
        if blen < rounded {
            return Err(Error::Truncated);
        }
        match MatchType::from_u16(wire::read_u16_at(buffer, 0)) {
            MatchType::OXM => (),
            _ => {
                return Err(Error::BadMatchType);
            },
        }
        if lenf < 4 {
            return Err(Error::Malformed);
        }
        let region = vstd::slice::slice_subrange(buffer, 4, lenf);
        let rlen = region.len();
        let ghost greg = region@;
        let mut elems: Vec<Oxm<E>> = Vec::new();
        let mut offset: usize = 0;
        proof {
            assert(greg.skip(0) =~= greg);
        }
        loop
            invariant_except_break
                Self::spec_parse(buffer@) == Self::spec_parse_list(greg),
                rlen == greg.len(),
                rlen == lenf - 4,
                lenf <= 0xffff,
                region@ == greg,
                offset <= rlen,
                offset == Self::spec_fields_len(elems@),
                forall|i: int| 0 <= i < elems@.len() ==> (#[trigger] elems@[i]).spec_wf(),
                Self::spec_parse_list(greg) is Some ==> Self::spec_parse_list(greg)
                    == Self::spec_prepend(elems@, Self::spec_parse_list(greg.skip(offset as int))),
            ensures
                Self::spec_parse(buffer@) == Self::spec_parse_list(greg),
                offset <= rlen,
                offset == Self::spec_fields_len(elems@),
                forall|i: int| 0 <= i < elems@.len() ==> (#[trigger] elems@[i]).spec_wf(),
                Self::spec_parse_list(greg) is Some ==> Self::spec_parse_list(greg) == Some(
                    Ok::<Seq<Oxm<E>>, Error>(elems@),
                ),
            decreases rlen - offset,
        {
            let sub = vstd::slice::slice_subrange(region, offset, rlen);
            proof {
                assert(sub@ =~= greg.skip(offset as int));
            }
            let remaining = rlen - offset;
            match Oxm::<E>::parse(sub) {
                Ok(x) => {
                    let n = x.buffer_len();
                    if n == 0 || n > remaining {
                        // No room to advance: end of list.  The entries this
                        // crate parses itself always advance; only an
                        // experimenter codec could land here.
                        proof {
                            if Self::spec_parse_list(greg) is Some {
                                Self::lemma_head_not_open(greg, offset as int, elems@);
                            }
                        }
                        break;
                    }
                    proof {
                        Self::lemma_fields_push(elems@, x);
                        assert(greg.skip(offset as int).skip(n as int) =~= greg.skip(
                            offset as int + n as int,
                        ));
                        if Self::spec_parse_list(greg) is Some {
                            Self::lemma_head_not_open(greg, offset as int, elems@);
                            Self::lemma_prepend_step(elems@, x, greg, offset as int);
                        }
                    }
                    elems.push(x);
                    offset += n;
                },
                Err(e) => {
                    match e {
                        Error::Truncated => {
                            proof {
                                if Self::spec_parse_list(greg) is Some {
                                    Self::lemma_head_not_open(greg, offset as int, elems@);
                                }
                            }
                            break;
                        },
                        _ => {
                            proof {
                                if Self::spec_parse_list(greg) is Some {
                                    Self::lemma_head_not_open(greg, offset as int, elems@);
                                    assert(Oxm::<E>::spec_parse_known(greg.skip(offset as int))
                                        is Some);
                                    assert(Self::spec_parse_list(greg.skip(offset as int)) == Some(
                                        Err::<Seq<Oxm<E>>, Error>(e),
                                    ));
                                    assert(Self::spec_parse_list(greg) == Some(Err::<
                                        Seq<Oxm<E>>,
                                        Error,
                                    >(e)));
                                }
                                assert(Self::spec_parse(buffer@) == Self::spec_parse_list(greg));
                            }
                            return Err(e);
                        },
                    }
                },
            }
        }
        proof {
            Self::lemma_fields_len_nonneg(elems@);
            Self::lemma_fields_bytes_len(elems@);
            field::lemma_round8_facts(4 + Self::spec_fields_len(elems@));
            field::lemma_round8_mono(4 + Self::spec_fields_len(elems@), lenf as int);
            field::lemma_round8_facts(lenf as int);
            assert(Self::spec_parse(buffer@) == Self::spec_parse_list(greg));
        }
        Ok(PacketRepr(elems))
    }

    /// When the whole region has a determined outcome, so has the remaining
    /// region: it cannot start with an experimenter entry.
    proof fn lemma_head_not_open(greg: Seq<u8>, offset: int, s: Seq<Oxm<E>>)
        requires
            Self::spec_parse_list(greg) is Some,
            Self::spec_parse_list(greg) == Self::spec_prepend(
                s,
                Self::spec_parse_list(greg.skip(offset)),
            ),
        ensures
            Self::spec_parse_list(greg.skip(offset)) is Some,
            Self::spec_parse_list(greg.skip(offset)) matches Some(rr) && rr matches Ok(t)
                ==> Self::spec_parse_list(greg) == Some(Ok::<Seq<Oxm<E>>, Error>(s + t)),
            Self::spec_parse_list(greg.skip(offset)) == Some(Ok::<Seq<Oxm<E>>, Error>(Seq::empty()))
                ==> Self::spec_parse_list(greg) == Some(Ok::<Seq<Oxm<E>>, Error>(s)),
            Self::spec_parse_list(greg.skip(offset)) matches Some(rr) && rr matches Err(e)
                ==> Self::spec_parse_list(greg) == Some(Err::<Seq<Oxm<E>>, Error>(e)),
    {
        assert(s + Seq::<Oxm<E>>::empty() =~= s);
    }

    /// Folding one parsed entry into the prefix keeps the composition.    /// Folding one parsed entry into the prefix keeps the composition.
    proof fn lemma_prepend_step(s: Seq<Oxm<E>>, x: Oxm<E>, greg: Seq<u8>, offset: int)
        requires
            Self::spec_parse_list(greg) is Some,
            Self::spec_parse_list(greg) == Self::spec_prepend(
                s,
                Self::spec_parse_list(greg.skip(offset)),
            ),
            0 <= offset,
            Self::spec_parse_list(greg.skip(offset)) == Self::spec_prepend(
                seq![x],
                Self::spec_parse_list(greg.skip(offset).skip(x.spec_wire().len() as int)),
            ),
        ensures
            Self::spec_parse_list(greg) == Self::spec_prepend(
                s.push(x),
                Self::spec_parse_list(greg.skip(offset).skip(x.spec_wire().len() as int)),
            ),
    {
        let rest = Self::spec_parse_list(greg.skip(offset).skip(x.spec_wire().len() as int));
        match rest {
            None => (),
            Some(rr) => match rr {
                Ok(t) => {
                    assert(s + (seq![x] + t) =~= s.push(x) + t);
                },
                Err(_) => (),
            },
        }
    }

    /// Emit this flow match at the start of `buffer`.
    pub fn emit(&self, buffer: &mut [u8]) -> (r: Result<(), Error>)
        requires
            self.spec_wf(),
        ensures
            final(buffer)@.len() == old(buffer)@.len(),
            self.spec_wire().len() <= old(buffer)@.len() ==> (r matches Ok(()))
                && final(buffer)@ == wire::splice(old(buffer)@, 0, self.spec_wire()),
            self.spec_wire().len() > old(buffer)@.len() ==> (r matches Err(e)
                && e == Error::Exhausted) && final(buffer)@ == old(buffer)@,
    {
        self.emit_at(buffer, 0)
    }

    /// Emit this flow match into `buffer` at `offset`: the 4-byte header,
    /// every entry's TLV in order, then zero padding.
    pub fn emit_at(&self, buffer: &mut [u8], offset: usize) -> (r: Result<(), Error>)
        requires
            self.spec_wf(),
        ensures
            final(buffer)@.len() == old(buffer)@.len(),
            offset + self.spec_wire().len() <= old(buffer)@.len() ==> (r matches Ok(()))
                && final(buffer)@ == wire::splice(old(buffer)@, offset as int, self.spec_wire()),
            offset + self.spec_wire().len() > old(buffer)@.len() ==> (r matches Err(e)
                && e == Error::Exhausted) && final(buffer)@ == old(buffer)@,
    {
        let total = self.buffer_len();
        if !wire::fits(buffer.len(), offset, total) {
            return Err(Error::Exhausted);
        }
        let fl = 4 + self.fields_len();
        let ghost o = old(buffer)@;
        let ghost hdr = seq![0x00u8, 0x01u8] + wire::spec_u16_be((fl as u16));
        wire::write_u8_at(buffer, offset, 0x00);
        wire::write_u8_at(buffer, offset + 1, 0x01);
        wire::write_u16_at(buffer, offset + 2, fl as u16);
        proof {
            wire::lemma_splice_adjacent(o, offset as int, seq![0x00u8], seq![0x01u8]);
            wire::lemma_splice_adjacent(o, offset as int, seq![0x00u8] + seq![0x01u8],
                wire::spec_u16_be((fl as u16)));
            assert(seq![0x00u8] + seq![0x01u8] + wire::spec_u16_be((fl as u16)) =~= hdr);
            assert(self.0@.take(0) =~= Seq::<Oxm<E>>::empty());
            assert(hdr + Self::spec_fields_bytes(self.0@.take(0)) =~= hdr);
        }
        let n = self.0.len();
        let blen = buffer.len();
        let mut i: usize = 0;
        let mut pos: usize = offset + 4;
        while i < n
            invariant
                self.spec_wf(),
                n == self.0@.len(),
                i <= n,
                fl == 4 + Self::spec_fields_len(self.0@),
                fl <= 0xffff,
                o == old(buffer)@,
                hdr == seq![0x00u8, 0x01u8] + wire::spec_u16_be((fl as u16)),
                offset + self.spec_total_len() <= o.len(),
                o.len() <= usize::MAX,
                self.spec_total_len() >= fl,
                pos == offset + 4 + Self::spec_fields_len(self.0@.take(i as int)),
                buffer@.len() == o.len(),
                buffer@ == wire::splice(o, offset as int, hdr + Self::spec_fields_bytes(
                    self.0@.take(i as int),
                )),
            decreases n - i,
        {
            proof {
                Self::lemma_fields_take_step(self.0@, i as int);
                Self::lemma_fields_take_le(self.0@, i + 1);
                Self::lemma_fields_bytes_len(self.0@.take(i as int));
            }
            let ghost prev = buffer@;
            let m = self.0[i].buffer_len();
            proof {
                assert(pos + self.0@[i as int].spec_wire().len() <= buffer@.len());
            }
            match self.0[i].emit_at(buffer, pos) {
                Ok(()) => (),
                Err(e) => {
                    proof {
                        assert(false);
                    }
                    return Err(e);
                },
            }
            proof {
                wire::lemma_splice_adjacent(o, offset as int, hdr + Self::spec_fields_bytes(
                    self.0@.take(i as int),
                ), self.0@[i as int].spec_wire());
                assert(hdr + Self::spec_fields_bytes(self.0@.take(i as int)) + self.0@[i
                    as int].spec_wire() =~= hdr + Self::spec_fields_bytes(self.0@.take(
                    i as int + 1,
                )));
            }
            pos += m;
            i += 1;
        }
        proof {
            assert(self.0@.take(n as int) =~= self.0@);
            Self::lemma_fields_bytes_len(self.0@);
        }
        let pad = total - fl;
        wire::write_zeros_at(buffer, pos, pad);
        proof {
            let fb = Self::spec_fields_bytes(self.0@);
            let zeros = Seq::new(pad as nat, |j: int| 0u8);
            wire::lemma_splice_adjacent(o, offset as int, hdr + fb, zeros);
            assert(hdr + fb + zeros =~= self.spec_wire());
        }
        Ok(())
    }

    proof fn lemma_fields_bytes_front(s: Seq<Oxm<E>>)
        requires
            s.len() > 0,
        ensures
            Self::spec_fields_bytes(s) == s[0].spec_wire() + Self::spec_fields_bytes(s.skip(1)),
            Self::spec_fields_len(s) == s[0].spec_wire().len() + Self::spec_fields_len(s.skip(1)),
        decreases s.len(),
    {
        if s.len() == 1 {
            assert(s.drop_last() =~= Seq::<Oxm<E>>::empty());
            assert(s.skip(1) =~= Seq::<Oxm<E>>::empty());
            assert(s[0].spec_wire() + Seq::<u8>::empty() =~= s[0].spec_wire());
        } else {
            let dl = s.drop_last();
            Self::lemma_fields_bytes_front(dl);
            assert(s.skip(1).drop_last() =~= dl.skip(1));
            assert(s.skip(1).last() == s.last());
            assert(dl[0] == s[0]);
            assert((s[0].spec_wire() + Self::spec_fields_bytes(dl.skip(1))) + s.last().spec_wire()
                =~= s[0].spec_wire() + (Self::spec_fields_bytes(dl.skip(1))
                + s.last().spec_wire()));
        }
    }

    /// Parsing the concatenated TLVs of well-formed, non-experimenter
    /// entries yields those entries back, in order.
    pub proof fn lemma_parse_list_roundtrip(s: Seq<Oxm<E>>)
        requires
            forall|i: int| 0 <= i < s.len() ==> (#[trigger] s[i]).spec_wf() && !(s[i]
                is Experimenter),
        ensures
            Self::spec_parse_list(Self::spec_fields_bytes(s)) == Some(
                Ok::<Seq<Oxm<E>>, Error>(s),
            ),
        decreases s.len(),
    {
        if s.len() == 0 {
            assert(!crate::oxm::packet::tlv_len_ok(Self::spec_fields_bytes(s)));
            assert(s =~= Seq::<Oxm<E>>::empty());
        } else {
            let x = s[0];
            let t = s.skip(1);
            Self::lemma_fields_bytes_front(s);
            Self::lemma_fields_len_nonneg(t);
            Self::lemma_fields_bytes_len(t);
            Self::lemma_fields_bytes_len(s);
            let tail_bytes = Self::spec_fields_bytes(t);
            Oxm::<E>::lemma_roundtrip(x, tail_bytes);
            let region = Self::spec_fields_bytes(s);
            let n = x.spec_wire().len() as int;
            assert(n <= region.len());
            assert(region.skip(n) =~= tail_bytes);
            assert forall|i: int| 0 <= i < t.len() implies (#[trigger] t[i]).spec_wf() && !(t[i]
                is Experimenter) by {
                assert(t[i] == s[i + 1]);
            }
            Self::lemma_parse_list_roundtrip(t);
            assert(seq![x] + t =~= s);
        }
    }

    /// Parsing the buffer a flow match of non-experimenter entries emits
    /// yields exactly those entries back, in order.
    pub proof fn lemma_roundtrip(m: &PacketRepr<E>)
        requires
            m.spec_wf(),
            forall|i: int| 0 <= i < m.0@.len() ==> !((#[trigger] m.0@[i]) is Experimenter),
        ensures
            Self::spec_parse(m.spec_wire()) == Some(Ok::<Seq<Oxm<E>>, Error>(m.0@)),
    {
        let s = m.0@;
        let b = m.spec_wire();
        let fl = 4 + Self::spec_fields_len(s);
        Self::lemma_fields_len_nonneg(s);
        Self::lemma_fields_bytes_len(s);
        field::lemma_round8_facts(fl);
        assert(b.len() == spec_round8(fl));
        assert(b[0] == 0u8 && b[1] == 1u8);
        assert((((0u8) as u16) << 8) | ((1u8) as u16) == 1) by (bit_vector);
        assert(wire::spec_read_u16(b, 0) == 1);
        wire::lemma_u16_roundtrip(b, 2, (fl as u16));
        assert(wire::spec_read_u16(b, 2) == fl);
        assert(b.subrange(4, fl) =~= Self::spec_fields_bytes(s));
        Self::lemma_parse_list_roundtrip(s);
    }

    /// Every padding byte of the emitted buffer is zero: the bytes after the
    /// declared length, up to the 8-byte boundary.
    pub proof fn lemma_padding_zero(&self, k: int)
        requires
            self.spec_wf(),
            4 + Self::spec_fields_len(self.0@) <= k < self.spec_total_len(),
        ensures
            self.spec_wire()[k] == 0,
    {
        Self::lemma_fields_bytes_len(self.0@);
    }
}

impl<E: Repr> Repr for PacketRepr<E> {
    open spec fn wf(&self) -> bool {
        self.spec_wf()
    }

    open spec fn wire(&self) -> Seq<u8> {
        self.spec_wire()
    }

    fn parse(buffer: &[u8]) -> (r: Result<Self, Error>) {
        PacketRepr::<E>::parse(buffer)
    }

    fn buffer_len(&self) -> (r: usize) {
        PacketRepr::<E>::buffer_len(self)
    }

    fn emit(&self, buffer: &mut [u8]) -> (r: Result<(), Error>) {
        PacketRepr::<E>::emit(self, buffer)
    }

    fn emit_at(&self, buffer: &mut [u8], offset: usize) -> (r: Result<(), Error>) {
        PacketRepr::<E>::emit_at(self, buffer, offset)
    }
}

} // verus!
