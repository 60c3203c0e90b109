use vstd::prelude::*;

verus! {

/// A rational media time value as the native framework represents it:
/// `value` counts ticks of `1 / timescale` seconds, `epoch` separates
/// otherwise-identical points on looping timelines, and `flags` carries the
/// native validity bits. The value is a direct struct copy out of the native
/// call, with no pointer indirection.
#[derive(Clone, Copy, PartialEq, Eq, Structural, Debug)]
pub struct CMTime {
    pub value: i64,
    pub timescale: i32,
    pub flags: u32,
    pub epoch: i64,
}

} // verus!
