//! Version bitmaps used in hello messages.
//!
//! A bitmap is a 32-bit integer whose bit `n` says that OpenFlow version
//! number `n` is supported; versions 1 to 31 fit in one bitmap.

use vstd::prelude::*;

use crate::packets::openflow::Version;
use crate::wire;
use crate::Error;

verus! {

/// A wrapper to read a version bitmap from a buffer.
#[derive(Debug, Clone)]
pub struct Bitmap<'a> {
    inner: &'a [u8],
}

impl<'a> Bitmap<'a> {
    /// The wrapped bytes.
    pub closed spec fn bytes(&self) -> Seq<u8> {
        self.inner@
    }

    /// Imbue a raw octet buffer with bitmap structure.
    pub fn new(buffer: &'a [u8]) -> (r: Self)
        ensures
            r.bytes() == buffer@,
    {
        Bitmap { inner: buffer }
    }

    /// Return a reader after checking that the 4 bitmap bytes are present.
    pub fn new_checked(buffer: &'a [u8]) -> (r: Result<Self, Error>)
        ensures
            buffer@.len() >= 4 ==> (r matches Ok(p) && p.bytes() == buffer@),
            buffer@.len() < 4 ==> r == Err::<Self, Error>(Error::Truncated),
    {
        let buf = Bitmap { inner: buffer };
        match buf.check_len() {
            Ok(()) => Ok(buf),
            Err(e) => Err(e),
        }
    }

    /// Check that the 4 bitmap bytes are present.
    pub fn check_len(&self) -> (r: Result<(), Error>)
        ensures
            self.bytes().len() >= 4 ==> r is Ok,
            self.bytes().len() < 4 ==> r == Err::<(), Error>(Error::Truncated),
    {
        if self.inner.len() < 4 {
            Err(Error::Truncated)
        } else {
            Ok(())
        }
    }

    /// Return the inner buffer.
    pub fn into_inner(self) -> (r: &'a [u8])
        ensures
            r@ == self.bytes(),
    {
        self.inner
    }

    /// Return the bitmap.
    pub fn bitmap(&self) -> (r: u32)
        requires
            self.bytes().len() >= 4,
        ensures
            r == wire::spec_read_u32(self.bytes(), 0),
    {
        wire::read_u32_at(self.inner, 0)
    }

    /// Return an iterator over the versions contained in this bitmap.
    pub fn iter_versions(&self) -> (r: BitmapIterator)
        requires
            self.bytes().len() >= 4,
        ensures
            r.bitmap == wire::spec_read_u32(self.bytes(), 0),
            r.shift == 0,
    {
        BitmapIterator::new(wire::read_u32_at(self.inner, 0))
    }

    /// Write the bitmap at the start of `buf`.
    pub fn set_bitmap(buf: &mut [u8], value: u32)
        requires
            old(buf)@.len() >= 4,
        ensures
            final(buf)@ == wire::splice(old(buf)@, 0, wire::spec_u32_be(value)),
    {
        wire::write_u32_at(buf, 0, value);
    }

    /// Compute the bitmap of the given versions and write it at the start
    /// of `buf`.  Every version number must be below 32.
    pub fn set_bitmap_from_versions(buf: &mut [u8], versions: &[Version])
        requires
            old(buf)@.len() >= 4,
            forall|i: int| 0 <= i < versions@.len()
                ==> (#[trigger] versions@[i]).spec_to_u8() < 32,
        ensures
            final(buf)@ == wire::splice(old(buf)@, 0, wire::spec_u32_be(spec_version_bitmap(
                versions@,
            ))),
    {
        let n = versions.len();
        let mut bitmap: u32 = 0;
        let mut i: usize = 0;
        while i < n
            invariant
                n == versions@.len(),
                i <= n,
                forall|k: int| 0 <= k < versions@.len()
                    ==> (#[trigger] versions@[k]).spec_to_u8() < 32,
                bitmap == spec_version_bitmap(versions@.take(i as int)),
            decreases n - i,
        {
            proof {
                assert(versions@.take(i as int + 1).drop_last() =~= versions@.take(i as int));
            }
            let v = versions[i];
            bitmap = bitmap | (1u32 << (v.to_u8() as u32));
            i += 1;
        }
        proof {
            assert(versions@.take(n as int) =~= versions@);
        }
        Bitmap::set_bitmap(buf, bitmap);
    }
}

/// The bitmap with one bit set for each version of `s`.
pub open spec fn spec_version_bitmap(s: Seq<Version>) -> u32
    decreases s.len(),
{
    if s.len() == 0 {
        0u32
    } else {
        spec_version_bitmap(s.drop_last()) | (1u32 << (s.last().spec_to_u8() as u32))
    }
}

/// A high-level representation of a version bitmap.
#[derive(Debug, PartialEq, Eq, Clone, Copy)]
pub struct BitmapRepr(pub u32);

impl BitmapRepr {
    /// Parse a bitmap buffer and return its high-level representation.
    pub fn parse(buffer: &Bitmap<'_>) -> (r: Result<BitmapRepr, Error>)
        requires
            buffer.bytes().len() >= 4,
        ensures
            r == Ok::<BitmapRepr, Error>(BitmapRepr(wire::spec_read_u32(buffer.bytes(), 0))),
    {
        Ok(BitmapRepr(buffer.bitmap()))
    }

    /// The length of the emitted bitmap: always 4 bytes.
    pub fn length(&self) -> (r: usize)
        ensures
            r == 4,
    {
        4
    }

    /// Emit this bitmap into `buf` at `offset`.
    pub fn emit(&self, buf: &mut [u8], offset: usize)
        requires
            offset + 4 <= old(buf)@.len(),
        ensures
            final(buf)@ == wire::splice(old(buf)@, offset as int, wire::spec_u32_be(self.0)),
    {
        wire::write_u32_at(buf, offset, self.0);
    }
}

/// An iterator over the OpenFlow versions contained in a bitmap, lowest
/// version number first.  Bit 0 is skipped: version numbers start at 1.
#[derive(Clone, Debug, Copy)]
pub struct BitmapIterator {
    /// The bitmap being walked.
    pub bitmap: u32,
    /// The last bit position examined.
    pub shift: usize,
}

impl BitmapIterator {
    pub(crate) fn new(bitmap: u32) -> (r: Self)
        ensures
            r.bitmap == bitmap,
            r.shift == 0,
    {
        BitmapIterator { bitmap, shift: 0 }
    }

    /// The next version in the bitmap, or `None` when no set bit remains.
    /// Version numbers start at 1: bit 0 is never reported.
    pub fn next(&mut self) -> (r: Option<Version>)
        ensures
            final(self).bitmap == old(self).bitmap,
            final(self).shift >= old(self).shift,
            r matches Some(v) ==> 1 <= final(self).shift < 32 && v == Version::spec_from_u8(
                final(self).shift as u8,
            ) && (old(self).bitmap >> final(self).shift as u32) & 1 == 1,
    {
        if self.shift >= 32 {
            return None;
        }
        loop
            invariant
                self.bitmap == old(self).bitmap,
                old(self).shift <= self.shift < 32,
            decreases 32 - self.shift,
        {
            self.shift += 1;
            if self.shift == 32 {
                return None;
            }
            let shifted_bitmap = self.bitmap >> (self.shift as u32);
            if shifted_bitmap == 0 {
                return None;
            }
            if (shifted_bitmap & 1) == 1 {
                return Some(Version::from_u8(self.shift as u8));
            }
        }
    }
}

} // verus!
