use vstd::prelude::*;

verus! {

/// One sub-buffer descriptor of a native audio buffer list: a channel count,
/// a declared byte length, and the sample bytes behind the descriptor's data
/// pointer. `data` is `None` where the descriptor holds a null data pointer;
/// where it is `Some`, it holds the `data_bytes_size` bytes that the pointer
/// addresses.
#[derive(Debug, PartialEq, Eq)]
pub struct AudioBuffer {
    pub number_channels: u32,
    pub data_bytes_size: u32,
    pub data: Option<Vec<u8>>,
}

/// The mathematical image of one descriptor.
#[verifier::ext_equal]
pub struct AudioBufferView {
    pub number_channels: u32,
    pub data_bytes_size: u32,
    pub data: Option<Seq<u8>>,
}

impl View for AudioBuffer {
    type V = AudioBufferView;

    open spec fn view(&self) -> AudioBufferView {
        AudioBufferView {
            number_channels: self.number_channels,
            data_bytes_size: self.data_bytes_size,
            data: match self.data {
                Some(d) => Some(d@),
                None => None,
            },
        }
    }
}

/// A variable-length native audio buffer list: an authoritative count field
/// followed by that many sub-buffer descriptors. The count is what the
/// native populate call wrote and is the only source of the list's length;
/// it is trusted, never inferred from anything else.
#[derive(Debug, PartialEq, Eq)]
pub struct AudioBufferList {
    pub number_buffers: u32,
    pub buffers: Vec<AudioBuffer>,
}

/// The mathematical image of a buffer list.
#[verifier::ext_equal]
pub struct AudioBufferListView {
    pub number_buffers: u32,
    pub buffers: Seq<AudioBufferView>,
}

impl View for AudioBufferList {
    type V = AudioBufferListView;

    open spec fn view(&self) -> AudioBufferListView {
        AudioBufferListView {
            number_buffers: self.number_buffers,
            buffers: self.buffers@.map_values(|b: AudioBuffer| b@),
        }
    }
}

/// The fully-owned output of an extraction: a channel count and a complete
/// copy of the sample bytes, with no dependency left on any native handle.
#[derive(Debug, PartialEq, Eq)]
pub struct CopiedAudioBuffer {
    pub number_channels: u32,
    pub data: Vec<u8>,
}

/// The trusted-count boundary: the authoritative `number_buffers` field
/// addresses no descriptor beyond the list.
pub open spec fn descriptor_count_trusted(l: AudioBufferListView) -> bool {
    l.number_buffers as int <= l.buffers.len()
}

/// The trusted-size boundary: each non-null descriptor's declared byte
/// length is the length of the region its data pointer addresses. The
/// declared count is accepted from the native side by design and not
/// re-validated.
pub open spec fn descriptor_sizes_trusted(l: AudioBufferListView) -> bool {
    forall|i: int|
        0 <= i < l.number_buffers as int ==> match (#[trigger] l.buffers[i]).data {
            Some(d) => d.len() == l.buffers[i].data_bytes_size as int,
            None => true,
        }
}

/// What the copier trusts of a populated list: both boundaries above.
pub open spec fn trusted_descriptor_list(l: AudioBufferListView) -> bool {
    descriptor_count_trusted(l) && descriptor_sizes_trusted(l)
}

/// Whether any descriptor that the count addresses carries a null data
/// pointer.
pub open spec fn has_null_data(l: AudioBufferListView) -> bool {
    exists|i: int| 0 <= i < l.number_buffers as int && (#[trigger] l.buffers[i]).data is None
}

/// The copier's result, pinned exactly: one owned entry per counted
/// descriptor, the channel count copied verbatim, and the sample bytes
/// byte-identical to the source region of the declared length.
pub open spec fn copies_of(l: AudioBufferListView, out: Seq<CopiedAudioBuffer>) -> bool {
    &&& out.len() == l.number_buffers as int
    &&& forall|i: int|
        0 <= i < out.len() ==> {
            &&& (#[trigger] out[i]).number_channels == l.buffers[i].number_channels
            &&& out[i].data@ == l.buffers[i].data.unwrap()
        }
}

/// Copies a byte region into a fresh owned vector.
pub fn copy_bytes(src: &Vec<u8>) -> (r: Vec<u8>)
    ensures
        r@ == src@,
{
    let mut out: Vec<u8> = Vec::new();
    let mut i: usize = 0;
    while i < src.len()
        invariant
            i <= src.len(),
            out@ =~= src@.subrange(0, i as int),
        decreases src.len() - i,
    {
        out.push(src[i]);
        i += 1;
    }
    proof {
        assert(out@ =~= src@);
    }
    out
}

/// Copies one descriptor, bytes included.
pub fn copy_audio_buffer(src: &AudioBuffer) -> (r: AudioBuffer)
    ensures
        r@ == src@,
{
    let data = match &src.data {
        Some(d) => Some(copy_bytes(d)),
        None => None,
    };
    let r = AudioBuffer { number_channels: src.number_channels, data_bytes_size: src.data_bytes_size, data };
    proof {
        assert(r@ =~= src@);
    }
    r
}

/// Copies a whole buffer list, descriptor by descriptor.
pub fn copy_audio_list(src: &AudioBufferList) -> (r: AudioBufferList)
    ensures
        r@ == src@,
{
    let mut buffers: Vec<AudioBuffer> = Vec::new();
    let mut i: usize = 0;
    while i < src.buffers.len()
        invariant
            i <= src.buffers.len(),
            buffers@.len() == i,
            forall|j: int| 0 <= j < i as int ==> (#[trigger] buffers@[j])@ == src.buffers@[j]@,
        decreases src.buffers.len() - i,
    {
        buffers.push(copy_audio_buffer(&src.buffers[i]));
        i += 1;
    }
    let r = AudioBufferList { number_buffers: src.number_buffers, buffers };
    proof {
        assert(r@.buffers =~= src@.buffers);
        assert(r@ =~= src@);
    }
    r
}

} // verus!
