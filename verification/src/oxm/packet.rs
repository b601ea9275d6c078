//! A read/write wrapper around an OXM TLV buffer.
//!
//! The four header bytes hold the class (16 bits), the field number (7 bits),
//! the has-mask flag (1 bit) and the payload length (8 bits); the payload
//! (value, or value followed by mask) starts at offset 4.

use vstd::prelude::*;

use crate::wire;
use crate::Error;

verus! {

/// The `oxm_class` field of a TLV byte string.
pub open spec fn tlv_class(b: Seq<u8>) -> u16 {
    wire::spec_read_u16(b, 0)
}

/// The `oxm_field` field (the high 7 bits of the third byte).
pub open spec fn tlv_field(b: Seq<u8>) -> u8 {
    b[2] >> 1
}

/// The has-mask flag (the low bit of the third byte).
pub open spec fn tlv_has_mask(b: Seq<u8>) -> bool {
    b[2] & 1 == 1
}

/// The `oxm_length` field: the payload length in bytes, header excluded.
pub open spec fn tlv_length(b: Seq<u8>) -> u8 {
    b[3]
}

/// A buffer is long enough when it holds the 4-byte header and the payload
/// the header declares.
pub open spec fn tlv_len_ok(b: Seq<u8>) -> bool {
    b.len() >= 4 && b.len() >= 4 + tlv_length(b)
}

/// A wrapper to read an OXM TLV from a buffer, and to write one through the
/// associated setter functions.
#[derive(Debug, Clone)]
pub struct Packet<'a> {
    inner: &'a [u8],
}

impl<'a> Packet<'a> {
    /// The wrapped bytes.
    pub closed spec fn bytes(&self) -> Seq<u8> {
        self.inner@
    }

    /// Return a new OXM TLV reader for the given buffer.
    pub fn new(buf: &'a [u8]) -> (r: Self)
        ensures
            r.bytes() == buf@,
    {
        Packet { inner: buf }
    }

    /// Return the inner buffer.
    pub fn into_inner(self) -> (r: &'a [u8])
        ensures
            r@ == self.bytes(),
    {
        self.inner
    }

    /// Return a reader for the given buffer after checking that no getter
    /// can read out of bounds.
    pub fn new_checked(buf: &'a [u8]) -> (r: Result<Self, Error>)
        ensures
            tlv_len_ok(buf@) ==> (r matches Ok(p) && p.bytes() == buf@),
            !tlv_len_ok(buf@) ==> r == Err::<Self, Error>(Error::Truncated),
    {
        let packet = Packet { inner: buf };
        match packet.check_len() {
            Ok(()) => Ok(packet),
            Err(e) => Err(e),
        }
    }

    /// Check that the buffer holds the header and the payload the header
    /// declares; fail with [`Error::Truncated`] otherwise.
    pub fn check_len(&self) -> (r: Result<(), Error>)
        ensures
            tlv_len_ok(self.bytes()) ==> r is Ok,
            !tlv_len_ok(self.bytes()) ==> r == Err::<(), Error>(Error::Truncated),
    {
        let len = self.inner.len();
        if len < 4 || len - 4 < self.length() as usize {
            Err(Error::Truncated)
        } else {
            Ok(())
        }
    }

    /// The buffer length.
    pub fn len(&self) -> (r: usize)
        ensures
            r == self.bytes().len(),
    {
        self.inner.len()
    }

    /// Return the `oxm_class` field.
    pub fn class(&self) -> (r: u16)
        requires
            self.bytes().len() >= 4,
        ensures
            r == tlv_class(self.bytes()),
    {
        wire::read_u16_at(self.inner, 0)
    }

    /// Return the `oxm_field` field.
    pub fn field(&self) -> (r: u8)
        requires
            self.bytes().len() >= 4,
        ensures
            r == tlv_field(self.bytes()),
    {
        self.inner[2] >> 1
    }

    /// Return `true` when the payload carries a mask after the value.
    pub fn has_mask(&self) -> (r: bool)
        requires
            self.bytes().len() >= 4,
        ensures
            r == tlv_has_mask(self.bytes()),
    {
        self.inner[2] & 0x01 == 1
    }

    /// Return the `oxm_length` field.
    pub fn length(&self) -> (r: u8)
        requires
            self.bytes().len() >= 4,
        ensures
            r == tlv_length(self.bytes()),
    {
        self.inner[3]
    }

    /// Return the payload: the bytes after the 4-byte header.  When the
    /// has-mask flag is set, the first half is the value and the second half
    /// the mask; otherwise the whole payload is the value.
    pub fn value(&self) -> (r: &'a [u8])
        requires
            self.bytes().len() >= 4,
        ensures
            r@ == self.bytes().subrange(4, self.bytes().len() as int),
    {
        vstd::slice::slice_subrange(self.inner, 4, self.inner.len())
    }

    /// Write the `oxm_class` field of the TLV starting at `buf[0]`.
    pub fn set_class(buf: &mut [u8], value: u16)
        requires
            old(buf)@.len() >= 4,
        ensures
            final(buf)@ == wire::splice(old(buf)@, 0, wire::spec_u16_be(value)),
    {
        wire::write_u16_at(buf, 0, value);
    }

    /// Write the `oxm_field` field of the TLV starting at `buf[0]`, keeping
    /// the has-mask bit.  The high bit of `value` is dropped: the field is 7
    /// bits wide.
    pub fn set_field(buf: &mut [u8], value: u8)
        requires
            old(buf)@.len() >= 4,
        ensures
            final(buf)@ == old(buf)@.update(2, (value << 1) | (old(buf)@[2] & 1)),
    {
        buf[2] = (value << 1) | (buf[2] & 1);
    }

    /// Set the has-mask flag of the TLV starting at `buf[0]`.
    pub fn set_mask(buf: &mut [u8])
        requires
            old(buf)@.len() >= 4,
        ensures
            final(buf)@ == old(buf)@.update(2, old(buf)@[2] | 1),
    {
        buf[2] = buf[2] | 1;
    }

    /// Clear the has-mask flag of the TLV starting at `buf[0]`.
    pub fn unset_mask(buf: &mut [u8])
        requires
            old(buf)@.len() >= 4,
        ensures
            final(buf)@ == old(buf)@.update(2, old(buf)@[2] & 0xfe),
    {
        buf[2] = buf[2] & 0xfe;
    }

    /// Write the `oxm_length` field of the TLV starting at `buf[0]`.
    pub fn set_length(buf: &mut [u8], value: u8)
        requires
            old(buf)@.len() >= 4,
        ensures
            final(buf)@ == old(buf)@.update(3, value),
    {
        buf[3] = value;
    }
}

} // verus!
