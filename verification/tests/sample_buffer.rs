use screencapturekit::audio_buffer::{AudioBuffer, AudioBufferList};
use screencapturekit::cm_sample_buffer_ref::CMSampleBufferRef;
use screencapturekit::error::ExtractionError;
use screencapturekit::os_types::CMTime;
use screencapturekit::runtime::NativeRuntime;
use screencapturekit::sc_stream_frame_info::SCStreamFrameInfo;

fn runtime(block_refcount: u32, alloc_succeeds: bool) -> NativeRuntime {
    NativeRuntime {
        block_refcount,
        data_buffer_resolved: false,
        alloc_succeeds,
        alloc_calls: 0,
        live_scratch: 0,
    }
}

fn buffer_with_audio(size_needed: usize, populate_status: i32, list: AudioBufferList) -> CMSampleBufferRef {
    CMSampleBufferRef {
        presentation_timestamp: CMTime { value: 900, timescale: 600, flags: 1, epoch: 0 },
        format_description: 0x1000,
        image_buffer: 0,
        attachments: vec![SCStreamFrameInfo { status: 0, flags: 2 }],
        audio_size_needed: size_needed,
        data_buffer: 0x2000,
        populate_status,
        audio_list: list,
    }
}

fn two_channel_list() -> AudioBufferList {
    AudioBufferList {
        number_buffers: 2,
        buffers: vec![
            AudioBuffer { number_channels: 1, data_bytes_size: 4, data: Some(vec![1, 2, 3, 4]) },
            AudioBuffer {
                number_channels: 2,
                data_bytes_size: 8,
                data: Some(vec![10, 20, 30, 40, 50, 60, 70, 80]),
            },
        ],
    }
}

#[test]
fn presentation_timestamp_is_direct_copy() {
    let buf = buffer_with_audio(0, 0, AudioBufferList { number_buffers: 0, buffers: vec![] });
    let t = buf.get_presentation_timestamp();
    assert_eq!(t, CMTime { value: 900, timescale: 600, flags: 1, epoch: 0 });
}

#[test]
fn format_description_present() {
    let buf = buffer_with_audio(0, 0, AudioBufferList { number_buffers: 0, buffers: vec![] });
    let fd = buf.get_format_description().expect("format description handle");
    assert_eq!(fd.handle().addr, 0x1000);
}

#[test]
fn format_description_null_is_none() {
    let mut buf = buffer_with_audio(0, 0, AudioBufferList { number_buffers: 0, buffers: vec![] });
    buf.format_description = 0;
    assert!(buf.get_format_description().is_none());
}

#[test]
fn image_buffer_none_for_audio_only() {
    let buf = buffer_with_audio(0, 0, AudioBufferList { number_buffers: 0, buffers: vec![] });
    assert!(buf.get_image_buffer().is_none());
}

#[test]
fn image_buffer_present() {
    let mut buf = buffer_with_audio(0, 0, AudioBufferList { number_buffers: 0, buffers: vec![] });
    buf.image_buffer = 0x3000;
    let img = buf.get_image_buffer().expect("image buffer handle");
    assert_eq!(img.handle().addr, 0x3000);
}

#[test]
fn frame_info_reads_first_attachment() {
    let mut buf = buffer_with_audio(0, 0, AudioBufferList { number_buffers: 0, buffers: vec![] });
    buf.attachments = vec![
        SCStreamFrameInfo { status: 3, flags: 7 },
        SCStreamFrameInfo { status: 9, flags: 9 },
    ];
    assert_eq!(buf.get_frame_info(), SCStreamFrameInfo { status: 3, flags: 7 });
}

#[test]
fn extraction_copies_two_buffers_exactly() {
    let buf = buffer_with_audio(64, 0, two_channel_list());
    let mut rt = runtime(5, true);
    let copies = buf.get_av_audio_buffer_list(&mut rt).expect("extraction succeeds");
    assert_eq!(copies.len(), 2);
    assert_eq!(copies[0].number_channels, 1);
    assert_eq!(copies[0].data, vec![1, 2, 3, 4]);
    assert_eq!(copies[1].number_channels, 2);
    assert_eq!(copies[1].data, vec![10, 20, 30, 40, 50, 60, 70, 80]);
    assert_eq!(rt.block_refcount, 5);
    assert_eq!(rt.live_scratch, 0);
}

#[test]
fn copied_byte_lengths_match_declared_sizes() {
    let buf = buffer_with_audio(64, 0, two_channel_list());
    let mut rt = runtime(1, true);
    let copies = buf.get_av_audio_buffer_list(&mut rt).expect("extraction succeeds");
    for (copy, descriptor) in copies.iter().zip(buf.audio_list.buffers.iter()) {
        assert_eq!(copy.data.len(), descriptor.data_bytes_size as usize);
    }
}

#[test]
fn zero_size_skips_populate_and_allocation() {
    let buf = buffer_with_audio(0, 0, AudioBufferList { number_buffers: 0, buffers: vec![] });
    let mut rt = runtime(2, true);
    let copies = buf.get_av_audio_buffer_list(&mut rt).expect("no audio is not an error");
    assert!(copies.is_empty());
    assert_eq!(rt.alloc_calls, 0);
    assert_eq!(rt.block_refcount, 2);
    assert_eq!(rt.live_scratch, 0);
}

#[test]
fn zero_size_empty_even_when_allocator_would_fail() {
    let buf = buffer_with_audio(0, 0, AudioBufferList { number_buffers: 0, buffers: vec![] });
    let mut rt = runtime(0, false);
    let copies = buf.get_av_audio_buffer_list(&mut rt).expect("no audio is not an error");
    assert!(copies.is_empty());
    assert_eq!(rt.alloc_calls, 0);
}

#[test]
fn failed_allocation_is_surfaced() {
    let buf = buffer_with_audio(64, 0, two_channel_list());
    let mut rt = runtime(4, false);
    let r = buf.get_av_audio_buffer_list(&mut rt);
    assert_eq!(r, Err(ExtractionError::AllocationFailed));
    assert_eq!(rt.block_refcount, 4);
    assert_eq!(rt.alloc_calls, 1);
    assert_eq!(rt.live_scratch, 0);
}

#[test]
fn failed_populate_is_surfaced() {
    let buf = buffer_with_audio(64, -12780, two_channel_list());
    let mut rt = runtime(4, true);
    let r = buf.get_av_audio_buffer_list(&mut rt);
    assert_eq!(r, Err(ExtractionError::ExtractionFailed));
    assert_eq!(rt.block_refcount, 4);
    assert_eq!(rt.live_scratch, 0);
}

#[test]
fn null_data_pointer_refuses_whole_extraction() {
    let mut list = two_channel_list();
    list.buffers[1].data = None;
    let buf = buffer_with_audio(64, 0, list);
    let mut rt = runtime(3, true);
    let r = buf.get_av_audio_buffer_list(&mut rt);
    assert_eq!(r, Err(ExtractionError::InvalidBuffer));
    assert_eq!(rt.block_refcount, 3);
    assert_eq!(rt.live_scratch, 0);
}

#[test]
fn null_list_pointer_is_invalid_input() {
    let buf = buffer_with_audio(0, 0, AudioBufferList { number_buffers: 0, buffers: vec![] });
    let r = buf.copy_audio_buffers(None);
    assert_eq!(r, Err(ExtractionError::InvalidInput));
}

#[test]
fn copier_visits_exactly_the_declared_count() {
    let buf = buffer_with_audio(0, 0, AudioBufferList { number_buffers: 0, buffers: vec![] });
    let mut list = two_channel_list();
    // A trailing descriptor past the authoritative count is never read.
    list.buffers.push(AudioBuffer { number_channels: 9, data_bytes_size: 1, data: None });
    let copies = buf.copy_audio_buffers(Some(&list)).expect("copy succeeds");
    assert_eq!(copies.len(), 2);
}

#[test]
fn copier_of_empty_list_is_empty() {
    let buf = buffer_with_audio(0, 0, AudioBufferList { number_buffers: 0, buffers: vec![] });
    let list = AudioBufferList { number_buffers: 0, buffers: vec![] };
    let copies = buf.copy_audio_buffers(Some(&list)).expect("copy succeeds");
    assert!(copies.is_empty());
}
