use vstd::prelude::*;

use crate::audio_buffer::copies_of;
use crate::audio_buffer::copy_audio_list;
use crate::audio_buffer::copy_bytes;
use crate::audio_buffer::has_null_data;
use crate::audio_buffer::trusted_descriptor_list;
use crate::audio_buffer::AudioBufferList;
use crate::audio_buffer::CopiedAudioBuffer;
use crate::cm_block_buffer_ref::CMBlockBufferRef;
use crate::cm_format_description_ref::CMFormatDescriptionRef;
use crate::cv_image_buffer_ref::CVImageBufferRef;
use crate::error::ExtractionError;
use crate::os_types::CMTime;
use crate::ownership::Exclusive;
use crate::ownership::Shared;
use crate::ownership::Unretained;
use crate::runtime::NativeRuntime;
use crate::runtime::ScratchRegion;
use crate::sc_stream_frame_info::SCStreamFrameInfo;

verus! {

/// One captured sample buffer, as this bridge reads it.
///
/// The native object is opaque: it is identified only by an address and all
/// interaction goes through the foreign ABI. This type holds, as plain
/// values, exactly what those foreign calls would yield for the buffer — the
/// presentation timestamp, the optional format description and image buffer
/// addresses (zero models null), the attachment array, and the audio plane:
/// the byte size the size query reports, the backing data buffer's address,
/// the status the populate call returns, and the buffer list it writes on
/// success. The buffer is created by the native capture pipeline and is
/// consumed read-only; every method here takes `&self`.
pub struct CMSampleBufferRef {
    pub presentation_timestamp: CMTime,
    pub format_description: u64,
    pub image_buffer: u64,
    pub attachments: Vec<SCStreamFrameInfo>,
    pub audio_size_needed: usize,
    pub data_buffer: u64,
    pub populate_status: i32,
    pub audio_list: AudioBufferList,
}

impl CMSampleBufferRef {
    /// Frame metadata: the first element of the buffer's attachment array.
    ///
    /// Attachment arrays are never empty for buffers produced by the capture
    /// pipeline; an empty array is a programmer-error precondition
    /// violation, not a recoverable case, so it is excluded here.
    pub fn get_frame_info(&self) -> (r: SCStreamFrameInfo)
        requires
            self.attachments@.len() > 0,
        ensures
            r == self.attachments@[0],
    {
        self.attachments[0]
    }

    /// The presentation timestamp: a direct struct copy, no indirection and
    /// no retained object.
    pub fn get_presentation_timestamp(&self) -> (r: CMTime)
        ensures
            r == self.presentation_timestamp,
    {
        self.presentation_timestamp
    }

    /// The buffer's format description, or `None` where the native call
    /// yields null — a valid answer for some buffer kinds. A non-null handle
    /// comes from a get-style call whose reference is co-held with the
    /// system, so it is wrapped as [`Shared`].
    pub fn get_format_description(&self) -> (r: Option<Shared<CMFormatDescriptionRef>>)
        ensures
            r is Some <==> self.format_description != 0,
            r matches Some(s) ==> s.handle_spec() == (CMFormatDescriptionRef { addr: self.format_description }),
    {
        if self.format_description == 0 {
            None
        } else {
            Some(Shared::from_retained(CMFormatDescriptionRef { addr: self.format_description }))
        }
    }

    /// The buffer's image buffer, or `None` for audio-only buffers; wrapped
    /// as [`Shared`] exactly as the format description is.
    pub fn get_image_buffer(&self) -> (r: Option<Shared<CVImageBufferRef>>)
        ensures
            r is Some <==> self.image_buffer != 0,
            r matches Some(s) ==> s.handle_spec() == (CVImageBufferRef { addr: self.image_buffer }),
    {
        if self.image_buffer == 0 {
            None
        } else {
            Some(Shared::from_retained(CVImageBufferRef { addr: self.image_buffer }))
        }
    }

    /// Phase one of extraction: the size-only mode of the native
    /// list-filling call, asked with a null output list for the byte size a
    /// full call would need. Its documented side effect — resolving the
    /// buffer's underlying data buffer — is what the populate phase depends
    /// on, so it is recorded in the runtime state.
    pub fn query_audio_list_size(&self, rt: &mut NativeRuntime) -> (r: usize)
        ensures
            r == self.audio_size_needed,
            final(rt).data_buffer_resolved,
            final(rt).block_refcount == old(rt).block_refcount,
            final(rt).alloc_succeeds == old(rt).alloc_succeeds,
            final(rt).alloc_calls == old(rt).alloc_calls,
            final(rt).live_scratch == old(rt).live_scratch,
    {
        rt.data_buffer_resolved = true;
        self.audio_size_needed
    }

    /// The buffer's backing data buffer, from a get-style call that retains
    /// nothing on the caller's behalf: the handle is wrapped as
    /// [`Unretained`] and must never be the one released. It is reacquired
    /// here only to pre-seed the populate call's in/out slot, which the
    /// native calling convention requires.
    pub fn get_data_buffer(&self) -> (r: Unretained<CMBlockBufferRef>)
        ensures
            r.handle_spec() == (CMBlockBufferRef { addr: self.data_buffer }),
    {
        Unretained::from_borrowed(CMBlockBufferRef { addr: self.data_buffer })
    }

    /// Phase two of extraction: the native populate call. It writes the
    /// buffer list into the scratch region and, on success, hands back a
    /// newly-retained reference to the backing block buffer, which the
    /// caller then exclusively owns and must release exactly once. On a
    /// non-zero status nothing is retained and nothing is written.
    ///
    /// The call depends on the size query's side effect and on its in/out
    /// slot being pre-seeded with the buffer's own data buffer handle — both
    /// are preconditions, so no caller can skip the first phase.
    pub fn populate_audio_list(
        &self,
        rt: &mut NativeRuntime,
        scratch: &mut ScratchRegion,
        block_slot: Unretained<CMBlockBufferRef>,
    ) -> (r: Result<Exclusive<CMBlockBufferRef>, i32>)
        requires
            old(rt).data_buffer_resolved,
            old(rt).block_refcount < u32::MAX,
            old(scratch).size >= self.audio_size_needed,
            block_slot.handle_spec() == (CMBlockBufferRef { addr: self.data_buffer }),
        ensures
            final(rt).data_buffer_resolved == old(rt).data_buffer_resolved,
            final(rt).alloc_succeeds == old(rt).alloc_succeeds,
            final(rt).alloc_calls == old(rt).alloc_calls,
            final(rt).live_scratch == old(rt).live_scratch,
            final(scratch).size == old(scratch).size,
            self.populate_status == 0 ==> {
                &&& r matches Ok(b) && b.handle_spec() == (CMBlockBufferRef { addr: self.data_buffer })
                &&& final(rt).block_refcount == old(rt).block_refcount + 1
                &&& final(scratch).list matches Some(l) && l@ == self.audio_list@
            },
            self.populate_status != 0 ==> {
                &&& r == Err::<Exclusive<CMBlockBufferRef>, i32>(self.populate_status)
                &&& final(rt).block_refcount == old(rt).block_refcount
                &&& final(scratch).list == old(scratch).list
            },
    {
        if self.populate_status == 0 {
            rt.block_refcount = rt.block_refcount + 1;
            scratch.list = Some(copy_audio_list(&self.audio_list));
            Ok(Exclusive::from_retained(*block_slot.handle()))
        } else {
            Err(self.populate_status)
        }
    }

    /// The full two-phase extraction protocol: query the needed size,
    /// reacquire the data buffer handle for the populate call's in/out slot,
    /// allocate the scratch region, populate it, copy every sub-buffer out,
    /// then free the scratch region and release the retained block buffer.
    ///
    /// The contract pins every outcome:
    /// - the foreign reference count of the block buffer is back at its
    ///   pre-call value on success and on every error path, and no scratch
    ///   allocation stays live;
    /// - a buffer with no audio yields `Ok` of an empty vector, and the
    ///   populate phase and the allocator are never invoked for it;
    /// - a failed scratch allocation yields `AllocationFailed`, a non-zero
    ///   populate status yields `ExtractionFailed`, a null data pointer in
    ///   the populated list yields `InvalidBuffer`;
    /// - otherwise the result is the exact owned copy of the populated list.
    ///
    /// The declared descriptor count and byte sizes of the populated list
    /// are the trust boundary of this design: the precondition states them
    /// instead of re-validating them.
    pub fn get_av_audio_buffer_list(&self, rt: &mut NativeRuntime) -> (r: Result<
        Vec<CopiedAudioBuffer>,
        ExtractionError,
    >)
        requires
            old(rt).block_refcount < u32::MAX,
            old(rt).alloc_calls < u32::MAX,
            old(rt).live_scratch < u32::MAX,
            self.audio_size_needed > 0 && self.populate_status == 0 ==> trusted_descriptor_list(
                self.audio_list@,
            ),
        ensures
            final(rt).block_refcount == old(rt).block_refcount,
            final(rt).live_scratch == old(rt).live_scratch,
            final(rt).alloc_succeeds == old(rt).alloc_succeeds,
            final(rt).data_buffer_resolved,
            self.audio_size_needed == 0 ==> {
                &&& r matches Ok(v) && v@.len() == 0
                &&& final(rt).alloc_calls == old(rt).alloc_calls
            },
            self.audio_size_needed > 0 ==> {
                &&& final(rt).alloc_calls == old(rt).alloc_calls + 1
                &&& (!old(rt).alloc_succeeds ==> r == Err::<Vec<CopiedAudioBuffer>, ExtractionError>(
                    ExtractionError::AllocationFailed,
                ))
                &&& (old(rt).alloc_succeeds && self.populate_status != 0 ==> r == Err::<
                    Vec<CopiedAudioBuffer>,
                    ExtractionError,
                >(ExtractionError::ExtractionFailed))
                &&& (old(rt).alloc_succeeds && self.populate_status == 0 ==> {
                    &&& (has_null_data(self.audio_list@) <==> r == Err::<
                        Vec<CopiedAudioBuffer>,
                        ExtractionError,
                    >(ExtractionError::InvalidBuffer))
                    &&& (!has_null_data(self.audio_list@) ==> (r matches Ok(v) && copies_of(
                        self.audio_list@,
                        v@,
                    )))
                })
            },
    {
        let buffer_size = self.query_audio_list_size(rt);
        if buffer_size == 0 {
            // No audio: allocating a zero-sized region and walking it would
            // be undefined, so the populate phase is skipped entirely.
            return Ok(Vec::new());
        }
        let block_slot = self.get_data_buffer();
        let mut scratch = match rt.alloc_scratch(buffer_size) {
            Some(s) => s,
            None => {
                return Err(ExtractionError::AllocationFailed);
            },
        };
        match self.populate_audio_list(rt, &mut scratch, block_slot) {
            Err(_status) => {
                rt.dealloc_scratch(scratch);
                Err(ExtractionError::ExtractionFailed)
            },
            Ok(retained) => {
                let copy_result = self.copy_audio_buffers(scratch.list.as_ref());
                rt.release_block_buffer(retained);
                rt.dealloc_scratch(scratch);
                copy_result
            },
        }
    }

    /// Walks a populated buffer list and produces fully-owned copies of each
    /// sub-buffer, all-or-nothing:
    /// - a null list pointer is refused with `InvalidInput`;
    /// - exactly `number_buffers` descriptors are visited, that count being
    ///   authoritative;
    /// - a descriptor with a null data pointer anywhere in the list refuses
    ///   the whole call with `InvalidBuffer`, and no partial result is
    ///   returned;
    /// - otherwise each entry copies the descriptor's channel count verbatim
    ///   and exactly its declared number of bytes.
    ///
    /// The precondition is the design's trust boundary: the declared count
    /// and byte sizes are accepted from the native call, not re-validated.
    pub fn copy_audio_buffers(&self, audio_buffer_list: Option<&AudioBufferList>) -> (r: Result<
        Vec<CopiedAudioBuffer>,
        ExtractionError,
    >)
        requires
            audio_buffer_list matches Some(l) ==> trusted_descriptor_list(l@),
        ensures
            audio_buffer_list is None <==> r == Err::<Vec<CopiedAudioBuffer>, ExtractionError>(
                ExtractionError::InvalidInput,
            ),
            audio_buffer_list matches Some(l) ==> {
                &&& (has_null_data(l@) <==> r == Err::<Vec<CopiedAudioBuffer>, ExtractionError>(
                    ExtractionError::InvalidBuffer,
                ))
                &&& (!has_null_data(l@) ==> (r matches Ok(v) && copies_of(l@, v@)))
            },
    {
        let l = match audio_buffer_list {
            None => {
                return Err(ExtractionError::InvalidInput);
            },
            Some(l) => l,
        };
        let count = l.number_buffers as usize;
        let mut out: Vec<CopiedAudioBuffer> = Vec::new();
        let mut i: usize = 0;
        while i < count
            invariant
                audio_buffer_list == Some(l),
                count == l.number_buffers as int,
                trusted_descriptor_list(l@),
                i <= count,
                out@.len() == i as int,
                forall|j: int| 0 <= j < i as int ==> (#[trigger] l@.buffers[j]).data is Some,
                forall|j: int|
                    0 <= j < i as int ==> {
                        &&& (#[trigger] out@[j]).number_channels == l@.buffers[j].number_channels
                        &&& out@[j].data@ == l@.buffers[j].data.unwrap()
                    },
            decreases count - i,
        {
            let descriptor = &l.buffers[i];
            proof {
                assert(l@.buffers[i as int] == descriptor@);
            }
            match &descriptor.data {
                None => {
                    proof {
                        assert(l@.buffers[i as int].data is None);
                        assert(has_null_data(l@));
                    }
                    return Err(ExtractionError::InvalidBuffer);
                },
                Some(d) => {
                    out.push(
                        CopiedAudioBuffer {
                            number_channels: descriptor.number_channels,
                            data: copy_bytes(d),
                        },
                    );
                },
            }
            i += 1;
        }
        proof {
            assert(!has_null_data(l@));
            assert(copies_of(l@, out@));
        }
        Ok(out)
    }
}

} // verus!
