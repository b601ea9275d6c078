//! Byte ranges of the packet-in framing.  The flow match starts after the
//! 16-byte fixed header; two padding bytes separate it from the frame.

#![allow(non_snake_case)]

use vstd::prelude::*;

use core::ops::Range;

verus! {

/// The range of the flow match bytes, given the flow match length.
pub fn FLOW_MATCH(flow_match_len: usize) -> (r: Range<usize>)
    requires
        16 + flow_match_len <= usize::MAX,
    ensures
        r.start == 16,
        r.end == 16 + flow_match_len,
{
    16..(16 + flow_match_len)
}

/// The range of the two padding bytes after the flow match.
pub fn PADDING(flow_match_len: usize) -> (r: Range<usize>)
    requires
        18 + flow_match_len <= usize::MAX,
    ensures
        r.start == 16 + flow_match_len,
        r.end == 18 + flow_match_len,
{
    (16 + flow_match_len)..(18 + flow_match_len)
}

/// The position where the frame starts, after the flow match and the
/// padding.
pub fn FRAME(flow_match_len: usize) -> (r: usize)
    requires
        18 + flow_match_len <= usize::MAX,
    ensures
        r == 18 + flow_match_len,
{
    18 + flow_match_len
}

} // verus!
