//! Safe extraction of audio payloads and scalar metadata from foreign,
//! reference-counted sample buffers.
//!
//! A captured sample buffer lives behind an opaque, manually reference-counted
//! native handle whose audio payload sits in a C-style variable-length buffer
//! list. This crate models that foreign state as plain values and verifies the
//! extraction path over the model: the two-phase size-query / allocate /
//! populate / copy / release protocol, the bounds-checked copier that turns
//! descriptors into owned buffers, and the ownership wrappers that make
//! retain/release conventions part of the types.

pub mod audio_buffer;
pub mod cm_block_buffer_ref;
pub mod cm_format_description_ref;
pub mod cm_sample_buffer_ref;
pub mod cv_image_buffer_ref;
pub mod error;
pub mod os_types;
pub mod ownership;
pub mod runtime;
pub mod sc_shareable_content;
pub mod sc_stream_frame_info;
