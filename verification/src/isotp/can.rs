//! Constants of the CAN bus that the frame codec uses, read from `rs_can`.

use vstd::prelude::*;

verus! {

/// Data size of a classical CAN frame.
pub open spec fn spec_frame_size() -> nat {
    8
}

/// Byte that fills a frame when the caller gives no padding.
pub open spec fn spec_default_padding() -> u8 {
    0xAA
}

/// Reads `rs_can::MAX_FRAME_SIZE`, which rs-can defines as 8 (the data
/// size of a classical CAN frame).
#[verifier::external_body]
pub(crate) fn max_frame_size() -> (r: usize)
    ensures
        r == spec_frame_size(),
{
    rs_can::MAX_FRAME_SIZE
}

/// Reads `rs_can::DEFAULT_PADDING`, which rs-can defines as 0xAA.
#[verifier::external_body]
pub(crate) fn default_padding() -> (r: u8)
    ensures
        r == spec_default_padding(),
{
    rs_can::DEFAULT_PADDING
}

} // verus!
