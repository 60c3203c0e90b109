use vstd::prelude::*;

verus! {

/// Opaque handle to a native image buffer carrying a video frame, identified
/// only by its address. An address of zero models a null handle, which the
/// native side returns for audio-only sample buffers.
#[derive(Clone, Copy, PartialEq, Eq, Structural, Debug)]
pub struct CVImageBufferRef {
    pub addr: u64,
}

impl CVImageBufferRef {
    /// Whether the handle is the null handle.
    pub open spec fn is_null(&self) -> bool {
        self.addr == 0
    }
}

} // verus!
