use vstd::prelude::*;

verus! {

/// Opaque handle to a native format description object, identified only by
/// its address. An address of zero models a null handle, which the native
/// side legitimately returns for some buffer kinds.
#[derive(Clone, Copy, PartialEq, Eq, Structural, Debug)]
pub struct CMFormatDescriptionRef {
    pub addr: u64,
}

impl CMFormatDescriptionRef {
    /// Whether the handle is the null handle.
    pub open spec fn is_null(&self) -> bool {
        self.addr == 0
    }
}

} // verus!
