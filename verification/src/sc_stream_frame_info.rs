use vstd::prelude::*;

verus! {

/// Per-frame metadata attached to a captured sample buffer: the capture
/// status reported by the native pipeline and the raw per-frame flags.
#[derive(Clone, Copy, PartialEq, Eq, Structural, Debug)]
pub struct SCStreamFrameInfo {
    pub status: u32,
    pub flags: u64,
}

} // verus!
