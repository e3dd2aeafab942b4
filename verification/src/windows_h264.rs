//! The H.264 encoder factory of the asynchronous hardware pipeline, which
//! always uses Media Foundation.
use vstd::prelude::*;
use crate::core_types::VideoCodec;

verus! {

/// H.264 encoder factory for asynchronous Media Foundation hardware
/// encoders.
pub struct MediaFoundationH264EncoderFactory;

impl MediaFoundationH264EncoderFactory {
    pub fn new() -> (r: Self) {
        MediaFoundationH264EncoderFactory
    }

    /// This pipeline always uses Media Foundation.
    pub fn use_media_foundation(&self) -> (r: bool)
        ensures
            r,
    {
        true
    }

    /// The codec produced: H.264.
    pub fn codec(&self) -> (r: VideoCodec)
        ensures
            r == VideoCodec::H264,
    {
        VideoCodec::H264
    }
}

} // verus!
