//! Codec for the OpenFlow control-plane wire protocol, centred on OXM
//! (OpenFlow eXtensible Match): class/field/mask/length-tagged TLVs that
//! express packet-matching and pipeline-metadata fields.
//!
//! Untrusted byte buffers received from a network peer are parsed into typed,
//! validated in-memory representations, and those representations are emitted
//! back into byte-exact wire buffers.  All multi-byte integers are big-endian.

use vstd::prelude::*;

pub mod oxm;
pub mod wire;

mod packets;
mod port;

pub use packets::{error, features_reply, get_config_reply, hello, openflow, packet_in, set_config};

pub use port::PortNumber;

verus! {

/// The error type for every fallible codec operation.
#[derive(Debug, Clone, Copy, PartialEq, Eq)]
pub enum Error {
    /// A destination buffer is too small to emit into; checked before any
    /// byte is written, so there is never a partial write.
    Exhausted,
    /// A source buffer is shorter than a field or header declares.
    Truncated,
    /// An incoming packet is well formed but semantically unknown at a higher
    /// layer (an unknown message kind, for example).
    Unrecognized,
    /// An incoming packet was recognized but is self-contradictory.
    Malformed,
    /// An OXM class value outside the known set.
    BadOxmClass,
    /// An OXM class that is recognized but deliberately unsupported
    /// (the legacy NXM encodings).
    UnsupportedOxmClass,
    /// A standard-class OXM field id outside the known set.
    BadOxmField,
    /// A flow match header whose match-type is not OXM.
    BadMatchType,
}

impl Error {
    /// A short description of this error.
    pub fn description(&self) -> (r: &'static str)
        ensures
            self is Exhausted ==> r@ == "buffer space exhausted"@,
            self is Truncated ==> r@ == "truncated packet"@,
            self is Unrecognized ==> r@ == "unrecognized packet"@,
            self is Malformed ==> r@ == "malformed packet"@,
            self is BadOxmClass ==> r@ == "unknown oxm class"@,
            self is UnsupportedOxmClass ==> r@ == "unsupported oxm class"@,
            self is BadOxmField ==> r@ == "unknown oxm field"@,
            self is BadMatchType ==> r@ == "unknown match type"@,
    {
        match self {
            Error::Exhausted => "buffer space exhausted",
            Error::Truncated => "truncated packet",
            Error::Unrecognized => "unrecognized packet",
            Error::Malformed => "malformed packet",
            Error::BadOxmClass => "unknown oxm class",
            Error::UnsupportedOxmClass => "unsupported oxm class",
            Error::BadOxmField => "unknown oxm field",
            Error::BadMatchType => "unknown match type",
        }
    }
}

/// The uniform parse / length / emit contract shared by every message
/// representation of this crate, and implemented by callers for the
/// experimenter extension point of [`oxm::Oxm`].
///
/// A representation describes, in ghost code, the exact byte string it emits
/// (`wire`) together with the well-formedness condition under which that byte
/// string is meaningful (`wf`).
pub trait Repr: Sized {
    /// Well-formedness of this representation: internal invariants hold and
    /// the emitted length is small enough to measure and address.
    spec fn wf(&self) -> bool;

    /// The exact bytes that `emit` writes for this representation.
    spec fn wire(&self) -> Seq<u8>;

    /// Parse a buffer and return a high-level representation.
    fn parse(buffer: &[u8]) -> (r: Result<Self, Error>)
        ensures
            r matches Ok(x) ==> x.wf() && x.wire().len() <= buffer@.len(),
    ;

    /// The length of the byte string that `emit` writes.
    fn buffer_len(&self) -> (r: usize)
        requires
            self.wf(),
        ensures
            r == self.wire().len(),
    ;

    /// Emit this representation at the start of `buffer`.
    fn emit(&self, buffer: &mut [u8]) -> (r: Result<(), Error>)
        requires
            self.wf(),
        ensures
            final(buffer)@.len() == old(buffer)@.len(),
            self.wire().len() <= old(buffer)@.len() ==> (r matches Ok(()))
                && final(buffer)@ == crate::wire::splice(old(buffer)@, 0, self.wire()),
            self.wire().len() > old(buffer)@.len() ==> (r matches Err(e)
                && e == Error::Exhausted) && final(buffer)@ == old(buffer)@,
    ;

    /// Emit this representation into `buffer` starting at byte `offset`,
    /// leaving every byte outside `offset .. offset + wire().len()` unchanged.
    fn emit_at(&self, buffer: &mut [u8], offset: usize) -> (r: Result<(), Error>)
        requires
            self.wf(),
        ensures
            final(buffer)@.len() == old(buffer)@.len(),
            offset + self.wire().len() <= old(buffer)@.len() ==> (r matches Ok(()))
                && final(buffer)@ == crate::wire::splice(old(buffer)@, offset as int, self.wire()),
            offset + self.wire().len() > old(buffer)@.len() ==> (r matches Err(e)
                && e == Error::Exhausted) && final(buffer)@ == old(buffer)@,
    ;
}

} // verus!
