use vstd::prelude::*;

verus! {

/// Why an audio extraction was refused. Every failure of the extraction path
/// is surfaced as one of these values; none of them terminates the process.
#[derive(Clone, Copy, PartialEq, Eq, Structural, Debug)]
pub enum ExtractionError {
    /// The caller passed a null audio buffer list pointer to the copy step.
    InvalidInput,
    /// A sub-buffer descriptor inside an otherwise valid list carries a null
    /// data pointer; the whole call is refused, never a partial list.
    InvalidBuffer,
    /// The native populate call reported a non-zero status.
    ExtractionFailed,
    /// The scratch allocation for the buffer list could not be obtained.
    AllocationFailed,
}

} // verus!
