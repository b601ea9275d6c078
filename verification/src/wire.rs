//! Bounds-checked big-endian byte accessors over plain byte slices.
//!
//! Every multi-byte integer of the protocol is big-endian (network order).
//! The spec functions here define what each accessor reads or writes, and the
//! lemmas relate reading back what was written.

use vstd::prelude::*;

verus! {

/// `orig` with `w` written over the bytes starting at `off`; bytes outside
/// that window are unchanged.  The length never changes: writes past the end
/// of `orig` are dropped (callers always stay in bounds).
pub open spec fn splice(orig: Seq<u8>, off: int, w: Seq<u8>) -> Seq<u8> {
    Seq::new(orig.len(), |i: int| if off <= i < off + w.len() { w[i - off] } else { orig[i] })
}

pub proof fn lemma_splice_empty(orig: Seq<u8>, off: int)
    ensures
        splice(orig, off, Seq::<u8>::empty()) == orig,
{
    assert(splice(orig, off, Seq::<u8>::empty()) =~= orig);
}

/// Two consecutive writes are one write of the concatenation.
pub proof fn lemma_splice_adjacent(orig: Seq<u8>, off: int, w1: Seq<u8>, w2: Seq<u8>)
    ensures
        splice(splice(orig, off, w1), off + w1.len(), w2) == splice(orig, off, w1 + w2),
{
    assert(splice(splice(orig, off, w1), off + w1.len(), w2) =~= splice(orig, off, w1 + w2));
}

/// The big-endian bytes of a `u16`.
pub open spec fn spec_u16_be(v: u16) -> Seq<u8> {
    seq![(v >> 8) as u8, v as u8]
}

/// The big-endian bytes of a `u32`.
pub open spec fn spec_u32_be(v: u32) -> Seq<u8> {
    seq![(v >> 24) as u8, (v >> 16) as u8, (v >> 8) as u8, v as u8]
}

/// The big-endian bytes of a `u64`.
pub open spec fn spec_u64_be(v: u64) -> Seq<u8> {
    seq![
        (v >> 56) as u8,
        (v >> 48) as u8,
        (v >> 40) as u8,
        (v >> 32) as u8,
        (v >> 24) as u8,
        (v >> 16) as u8,
        (v >> 8) as u8,
        v as u8,
    ]
}

/// The three big-endian bytes of the low 24 bits of a `u32`.
pub open spec fn spec_u24_be(v: u32) -> Seq<u8> {
    seq![(v >> 16) as u8, (v >> 8) as u8, v as u8]
}

/// The `u16` read big-endian at position `i` of `s`.
pub open spec fn spec_read_u16(s: Seq<u8>, i: int) -> u16 {
    ((s[i] as u16) << 8) | (s[i + 1] as u16)
}

/// The `u32` read big-endian at position `i` of `s`.
pub open spec fn spec_read_u32(s: Seq<u8>, i: int) -> u32 {
    ((s[i] as u32) << 24) | ((s[i + 1] as u32) << 16) | ((s[i + 2] as u32) << 8) | (s[i
        + 3] as u32)
}

/// The `u64` read big-endian at position `i` of `s`.
pub open spec fn spec_read_u64(s: Seq<u8>, i: int) -> u64 {
    ((s[i] as u64) << 56) | ((s[i + 1] as u64) << 48) | ((s[i + 2] as u64) << 40) | ((s[i
        + 3] as u64) << 32) | ((s[i + 4] as u64) << 24) | ((s[i + 5] as u64) << 16) | ((s[i
        + 6] as u64) << 8) | (s[i + 7] as u64)
}

/// The 24-bit integer read big-endian at position `i` of `s`, as a `u32`.
pub open spec fn spec_read_u24(s: Seq<u8>, i: int) -> u32 {
    ((s[i] as u32) << 16) | ((s[i + 1] as u32) << 8) | (s[i + 2] as u32)
}

/// Reading back the bytes of `v` yields `v`.
pub proof fn lemma_u16_roundtrip(s: Seq<u8>, i: int, v: u16)
    requires
        s[i] == (v >> 8) as u8,
        s[i + 1] == v as u8,
    ensures
        spec_read_u16(s, i) == v,
{
    let b0 = s[i];
    let b1 = s[i + 1];
    assert(b0 == (v >> 8) as u8 && b1 == v as u8 ==> ((b0 as u16) << 8) | (b1 as u16) == v)
        by (bit_vector);
}

/// Reading back the bytes of `v` yields `v`.
pub proof fn lemma_u32_roundtrip(s: Seq<u8>, i: int, v: u32)
    requires
        s[i] == (v >> 24) as u8,
        s[i + 1] == (v >> 16) as u8,
        s[i + 2] == (v >> 8) as u8,
        s[i + 3] == v as u8,
    ensures
        spec_read_u32(s, i) == v,
{
    let b0 = s[i];
    let b1 = s[i + 1];
    let b2 = s[i + 2];
    let b3 = s[i + 3];
    assert(b0 == (v >> 24) as u8 && b1 == (v >> 16) as u8 && b2 == (v >> 8) as u8 && b3 == v as u8
        ==> ((b0 as u32) << 24) | ((b1 as u32) << 16) | ((b2 as u32) << 8) | (b3 as u32) == v)
        by (bit_vector);
}

/// Reading back the bytes of `v` yields `v`.
pub proof fn lemma_u64_roundtrip(s: Seq<u8>, i: int, v: u64)
    requires
        s[i] == (v >> 56) as u8,
        s[i + 1] == (v >> 48) as u8,
        s[i + 2] == (v >> 40) as u8,
        s[i + 3] == (v >> 32) as u8,
        s[i + 4] == (v >> 24) as u8,
        s[i + 5] == (v >> 16) as u8,
        s[i + 6] == (v >> 8) as u8,
        s[i + 7] == v as u8,
    ensures
        spec_read_u64(s, i) == v,
{
    let b0 = s[i];
    let b1 = s[i + 1];
    let b2 = s[i + 2];
    let b3 = s[i + 3];
    let b4 = s[i + 4];
    let b5 = s[i + 5];
    let b6 = s[i + 6];
    let b7 = s[i + 7];
    assert(b0 == (v >> 56) as u8 && b1 == (v >> 48) as u8 && b2 == (v >> 40) as u8 && b3 == (v
        >> 32) as u8 && b4 == (v >> 24) as u8 && b5 == (v >> 16) as u8 && b6 == (v >> 8) as u8 && b7
        == v as u8 ==> ((b0 as u64) << 56) | ((b1 as u64) << 48) | ((b2 as u64) << 40) | ((b3
        as u64) << 32) | ((b4 as u64) << 24) | ((b5 as u64) << 16) | ((b6 as u64) << 8) | (b7
        as u64) == v) by (bit_vector);
}

/// Reading back the three bytes of a 24-bit value yields it.
pub proof fn lemma_u24_roundtrip(s: Seq<u8>, i: int, v: u32)
    requires
        v < 0x100_0000,
        s[i] == (v >> 16) as u8,
        s[i + 1] == (v >> 8) as u8,
        s[i + 2] == v as u8,
    ensures
        spec_read_u24(s, i) == v,
{
    let b0 = s[i];
    let b1 = s[i + 1];
    let b2 = s[i + 2];
    assert(v < 0x100_0000 && b0 == (v >> 16) as u8 && b1 == (v >> 8) as u8 && b2 == v as u8 ==> ((b0
        as u32) << 16) | ((b1 as u32) << 8) | (b2 as u32) == v) by (bit_vector);
}

/// A 24-bit read is always below `2^24`.
pub proof fn lemma_read_u24_bound(s: Seq<u8>, i: int)
    ensures
        spec_read_u24(s, i) < 0x100_0000,
{
    let b0 = s[i];
    let b1 = s[i + 1];
    let b2 = s[i + 2];
    assert(((b0 as u32) << 16) | ((b1 as u32) << 8) | (b2 as u32) < 0x100_0000) by (bit_vector);
}

/// True exactly when `need` bytes fit in a buffer of length `len` at `offset`.
pub fn fits(len: usize, offset: usize, need: usize) -> (r: bool)
    ensures
        r <==> offset + need <= len,
{
    offset <= len && len - offset >= need
}

pub fn read_u8_at(buf: &[u8], i: usize) -> (r: u8)
    requires
        i < buf@.len(),
    ensures
        r == buf@[i as int],
{
    buf[i]
}

pub fn read_u16_at(buf: &[u8], i: usize) -> (r: u16)
    requires
        i + 2 <= buf@.len(),
    ensures
        r == spec_read_u16(buf@, i as int),
{
    ((buf[i] as u16) << 8) | (buf[i + 1] as u16)
}

pub fn read_u32_at(buf: &[u8], i: usize) -> (r: u32)
    requires
        i + 4 <= buf@.len(),
    ensures
        r == spec_read_u32(buf@, i as int),
{
    ((buf[i] as u32) << 24) | ((buf[i + 1] as u32) << 16) | ((buf[i + 2] as u32) << 8) | (buf[i
        + 3] as u32)
}

pub fn read_u64_at(buf: &[u8], i: usize) -> (r: u64)
    requires
        i + 8 <= buf@.len(),
    ensures
        r == spec_read_u64(buf@, i as int),
{
    ((buf[i] as u64) << 56) | ((buf[i + 1] as u64) << 48) | ((buf[i + 2] as u64) << 40) | ((buf[i
        + 3] as u64) << 32) | ((buf[i + 4] as u64) << 24) | ((buf[i + 5] as u64) << 16) | ((buf[i
        + 6] as u64) << 8) | (buf[i + 7] as u64)
}

pub fn read_u24_at(buf: &[u8], i: usize) -> (r: u32)
    requires
        i + 3 <= buf@.len(),
    ensures
        r == spec_read_u24(buf@, i as int),
        r < 0x100_0000,
{
    let r = ((buf[i] as u32) << 16) | ((buf[i + 1] as u32) << 8) | (buf[i + 2] as u32);
    proof {
        lemma_read_u24_bound(buf@, i as int);
    }
    r
}

/// Copy `N` bytes out of `buf` starting at `i`.
pub fn read_bytes_at<const N: usize>(buf: &[u8], i: usize) -> (r: [u8; N])
    requires
        i + N <= buf@.len(),
    ensures
        r@ == buf@.subrange(i as int, i + N),
{
    let blen = buf.len();
    let mut out = [0u8; N];
    let mut k: usize = 0;
    while k < N
        invariant
            k <= N,
            blen == buf@.len(),
            i + N <= blen,
            out@.len() == N,
            forall|j: int| 0 <= j < k ==> out@[j] == buf@[i + j],
        decreases N - k,
    {
        out[k] = buf[i + k];
        k += 1;
    }
    assert(out@ =~= buf@.subrange(i as int, i + N));
    out
}

pub fn write_u8_at(buf: &mut [u8], i: usize, v: u8)
    requires
        i < old(buf)@.len(),
    ensures
        final(buf)@ == splice(old(buf)@, i as int, seq![v]),
{
    buf[i] = v;
    assert(final(buf)@ =~= splice(old(buf)@, i as int, seq![v]));
}

pub fn write_u16_at(buf: &mut [u8], i: usize, v: u16)
    requires
        i + 2 <= old(buf)@.len(),
    ensures
        final(buf)@ == splice(old(buf)@, i as int, spec_u16_be(v)),
{
    buf[i] = (v >> 8) as u8;
    buf[i + 1] = v as u8;
    assert(final(buf)@ =~= splice(old(buf)@, i as int, spec_u16_be(v)));
}

pub fn write_u32_at(buf: &mut [u8], i: usize, v: u32)
    requires
        i + 4 <= old(buf)@.len(),
    ensures
        final(buf)@ == splice(old(buf)@, i as int, spec_u32_be(v)),
{
    buf[i] = (v >> 24) as u8;
    buf[i + 1] = (v >> 16) as u8;
    buf[i + 2] = (v >> 8) as u8;
    buf[i + 3] = v as u8;
    assert(final(buf)@ =~= splice(old(buf)@, i as int, spec_u32_be(v)));
}

pub fn write_u64_at(buf: &mut [u8], i: usize, v: u64)
    requires
        i + 8 <= old(buf)@.len(),
    ensures
        final(buf)@ == splice(old(buf)@, i as int, spec_u64_be(v)),
{
    buf[i] = (v >> 56) as u8;
    buf[i + 1] = (v >> 48) as u8;
    buf[i + 2] = (v >> 40) as u8;
    buf[i + 3] = (v >> 32) as u8;
    buf[i + 4] = (v >> 24) as u8;
    buf[i + 5] = (v >> 16) as u8;
    buf[i + 6] = (v >> 8) as u8;
    buf[i + 7] = v as u8;
    assert(final(buf)@ =~= splice(old(buf)@, i as int, spec_u64_be(v)));
}

pub fn write_u24_at(buf: &mut [u8], i: usize, v: u32)
    requires
        i + 3 <= old(buf)@.len(),
    ensures
        final(buf)@ == splice(old(buf)@, i as int, spec_u24_be(v)),
{
    buf[i] = (v >> 16) as u8;
    buf[i + 1] = (v >> 8) as u8;
    buf[i + 2] = v as u8;
    assert(final(buf)@ =~= splice(old(buf)@, i as int, spec_u24_be(v)));
}

/// Copy all of `src` into `buf` starting at `i`.
pub fn write_bytes_at(buf: &mut [u8], i: usize, src: &[u8])
    requires
        i + src@.len() <= old(buf)@.len(),
    ensures
        final(buf)@ == splice(old(buf)@, i as int, src@),
{
    let n = src.len();
    let blen = buf.len();
    let mut k: usize = 0;
    while k < n
        invariant
            k <= n,
            n == src@.len(),
            blen == old(buf)@.len(),
            i + n <= blen,
            buf@ == splice(old(buf)@, i as int, src@.subrange(0, k as int)),
        decreases n - k,
    {
        let ghost prev = buf@;
        buf[i + k] = src[k];
        assert(buf@ =~= splice(old(buf)@, i as int, src@.subrange(0, k + 1))) by {
            assert(buf@ == prev.update(i + k, src@[k as int]));
        }
        k += 1;
    }
    assert(src@.subrange(0, n as int) =~= src@);
}

/// Zero-fill `buf[i .. i + n]`.
pub fn write_zeros_at(buf: &mut [u8], i: usize, n: usize)
    requires
        i + n <= old(buf)@.len(),
    ensures
        final(buf)@ == splice(old(buf)@, i as int, Seq::new(n as nat, |j: int| 0u8)),
{
    let blen = buf.len();
    let mut k: usize = 0;
    while k < n
        invariant
            k <= n,
            blen == old(buf)@.len(),
            i + n <= blen,
            buf@ == splice(old(buf)@, i as int, Seq::new(k as nat, |j: int| 0u8)),
        decreases n - k,
    {
        let ghost prev = buf@;
        buf[i + k] = 0;
        assert(buf@ =~= splice(old(buf)@, i as int, Seq::new((k + 1) as nat, |j: int| 0u8))) by {
            assert(buf@ == prev.update(i + k, 0u8));
        }
        k += 1;
    }
}

/// Masking is idempotent.
pub proof fn lemma_u8_and_idem(x: u8, m: u8)
    ensures
        (x & m) & m == x & m,
{
    assert((x & m) & m == x & m) by (bit_vector);
}

/// Masking is idempotent.
pub proof fn lemma_u16_and_idem(x: u16, m: u16)
    ensures
        (x & m) & m == x & m,
{
    assert((x & m) & m == x & m) by (bit_vector);
}

/// Masking is idempotent.
pub proof fn lemma_u32_and_idem(x: u32, m: u32)
    ensures
        (x & m) & m == x & m,
{
    assert((x & m) & m == x & m) by (bit_vector);
}

/// A value equal to its low 24 bits is below `2^24`.
pub proof fn lemma_u24_masked_bound(x: u32)
    ensures
        x & 0xff_ffff == x ==> x < 0x100_0000,
{
    assert(x & 0xff_ffff == x ==> x < 0x100_0000) by (bit_vector);
}

/// The array whose element sequence is `s` (meaningful when such an array
/// exists, which every caller shows by producing one).
pub open spec fn seq_to_arr<const N: usize>(s: Seq<u8>) -> [u8; N] {
    choose|a: [u8; N]| a@ == s
}

/// `seq_to_arr` inverts the view of any concrete array.
pub proof fn lemma_seq_to_arr<const N: usize>(a: [u8; N])
    ensures
        seq_to_arr::<N>(a@) == a,
{
    broadcast use vstd::array::group_array_axioms;

    assert(a@ == a@);
    assert(exists|x: [u8; N]| x@ == a@);
    let w = seq_to_arr::<N>(a@);
    assert(w@ == a@);
    assert(w@ =~= a@);
}

/// Dropping the low bit of a byte leaves a 7-bit value.
pub proof fn lemma_shr1_bound(x: u8)
    ensures
        x >> 1 < 0x80,
{
    assert(x >> 1 < 0x80) by (bit_vector);
}

} // verus!
