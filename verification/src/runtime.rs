use vstd::prelude::*;

use crate::audio_buffer::AudioBufferList;
use crate::cm_block_buffer_ref::CMBlockBufferRef;
use crate::ownership::Exclusive;

verus! {

/// The scratch region that one extraction allocates for the native populate
/// call: a byte region of the queried size with the required 16-byte
/// alignment. Before the populate call it holds nothing; afterwards it holds
/// the written buffer list. It is owned exclusively by the extractor for the
/// duration of one call and handed back to [`NativeRuntime::dealloc_scratch`]
/// on every exit path.
pub struct ScratchRegion {
    pub size: usize,
    pub list: Option<AudioBufferList>,
}

/// The foreign runtime state that one sample buffer's extraction touches:
/// the reference count of the backing block buffer, the side effect of the
/// size query that the populate call depends on, and the scratch allocator's
/// observable behaviour.
///
/// The extraction contracts are stated against this value, so that what the
/// protocol promises — the reference count back at its pre-call value, no
/// scratch left live, no allocation attempted when none is needed — is
/// checked on every path.
pub struct NativeRuntime {
    /// Foreign reference count of the buffer's backing block buffer.
    pub block_refcount: u32,
    /// Whether a size query has already resolved the underlying data buffer,
    /// the documented side effect the populate call depends on.
    pub data_buffer_resolved: bool,
    /// Whether the next scratch allocation succeeds.
    pub alloc_succeeds: bool,
    /// How many scratch allocations have been requested.
    pub alloc_calls: u32,
    /// How many scratch allocations are currently outstanding.
    pub live_scratch: u32,
}

impl NativeRuntime {
    /// Allocates a scratch region of the given size with the required
    /// alignment. Failure is surfaced, never fatal.
    pub fn alloc_scratch(&mut self, size: usize) -> (r: Option<ScratchRegion>)
        requires
            old(self).alloc_calls < u32::MAX,
            old(self).live_scratch < u32::MAX,
        ensures
            final(self).alloc_calls == old(self).alloc_calls + 1,
            final(self).block_refcount == old(self).block_refcount,
            final(self).data_buffer_resolved == old(self).data_buffer_resolved,
            final(self).alloc_succeeds == old(self).alloc_succeeds,
            r is Some <==> old(self).alloc_succeeds,
            r matches Some(s) ==> {
                &&& s.size == size
                &&& s.list is None
                &&& final(self).live_scratch == old(self).live_scratch + 1
            },
            r is None ==> final(self).live_scratch == old(self).live_scratch,
    {
        self.alloc_calls = self.alloc_calls + 1;
        if self.alloc_succeeds {
            self.live_scratch = self.live_scratch + 1;
            Some(ScratchRegion { size, list: None })
        } else {
            None
        }
    }

    /// Frees a scratch region. Taking the region by value pairs exactly one
    /// deallocation with each allocation.
    pub fn dealloc_scratch(&mut self, scratch: ScratchRegion)
        requires
            old(self).live_scratch > 0,
        ensures
            final(self).live_scratch == old(self).live_scratch - 1,
            final(self).block_refcount == old(self).block_refcount,
            final(self).data_buffer_resolved == old(self).data_buffer_resolved,
            final(self).alloc_succeeds == old(self).alloc_succeeds,
            final(self).alloc_calls == old(self).alloc_calls,
    {
        let _ = scratch;
        self.live_scratch = self.live_scratch - 1;
    }

    /// Releases the one retained reference that an [`Exclusive`] wrapper
    /// stands for, decrementing the foreign count. Consuming the wrapper
    /// makes a second release of the same reference unwritable.
    pub fn release_block_buffer(&mut self, retained: Exclusive<CMBlockBufferRef>)
        requires
            old(self).block_refcount > 0,
        ensures
            final(self).block_refcount == old(self).block_refcount - 1,
            final(self).data_buffer_resolved == old(self).data_buffer_resolved,
            final(self).alloc_succeeds == old(self).alloc_succeeds,
            final(self).alloc_calls == old(self).alloc_calls,
            final(self).live_scratch == old(self).live_scratch,
    {
        let _ = retained.into_handle();
        self.block_refcount = self.block_refcount - 1;
    }
}

} // verus!
