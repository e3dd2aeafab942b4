use vstd::prelude::*;

pub mod bytes;
pub mod core_types;
pub mod ntp;
pub mod job_slot;
pub mod audio;
pub mod capture;
pub mod character;
pub mod codec;
pub mod media_foundation;
pub mod openh264;
pub mod vpx;
pub mod windows_h264;
pub mod h264_mf;
pub mod nal;
pub mod annexb;
pub mod yuv_layout;
pub mod encode_pipeline;
pub mod audio_stream;

verus! {

} // verus!
