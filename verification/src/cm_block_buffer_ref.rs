use vstd::prelude::*;

verus! {

/// Opaque handle to the native storage object that backs an audio buffer
/// list's sample bytes. The object is identified only by its address; an
/// address of zero models a null handle. One reference to it is retained as
/// a side effect of the populate phase of extraction and must be released
/// exactly once afterwards.
#[derive(Clone, Copy, PartialEq, Eq, Structural, Debug)]
pub struct CMBlockBufferRef {
    pub addr: u64,
}

impl CMBlockBufferRef {
    /// Whether the handle is the null handle.
    pub open spec fn is_null(&self) -> bool {
        self.addr == 0
    }
}

} // verus!
