//! Settings of the OpenH264 software encoder.
use vstd::prelude::*;
use crate::core_types::VideoCodec;

verus! {

/// OpenH264 encoder factory.
pub struct OpenH264EncoderFactory;

impl OpenH264EncoderFactory {
    pub fn new() -> (r: Self) {
        OpenH264EncoderFactory
    }

    /// The codec produced: H.264.
    pub fn codec(&self) -> (r: VideoCodec)
        ensures
            r == VideoCodec::H264,
    {
        VideoCodec::H264
    }
}

/// Target bit rate in bit/s: two bits per pixel.
pub fn openh264_bitrate(width: u32, height: u32) -> (r: u32)
    requires
        width * height * 2 <= u32::MAX,
    ensures
        r == width * height * 2,
{
    proof {
        assert(width * height <= width * height * 2) by (nonlinear_arith)
            requires
                width >= 0,
                height >= 0,
        ;
    }
    width * height * 2
}

/// Encoder threads: the available parallelism, at most 16.
pub fn openh264_threads(available_parallelism: usize) -> (r: u16)
    ensures
        r == if available_parallelism < 16 {
            available_parallelism
        } else {
            16
        },
{
    if available_parallelism < 16 {
        available_parallelism as u16
    } else {
        16
    }
}

} // verus!
