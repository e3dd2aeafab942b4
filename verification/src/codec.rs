//! Hardware encoder output: codec kinds, encoded frames, and the keyframe
//! and parameter-set handling of H.264 output samples.
use vstd::prelude::*;
use crate::bytes::{append_range, push_start_code, start_code4};
use crate::core_types::VideoCodec;
use crate::nal::{annexb_from_mf_data, mf_data_to_annexb};

verus! {

/// The hardware encoders that can be created.
#[derive(Debug, Clone, Copy, PartialEq, Eq, Structural)]
pub enum CodecType {
    H264,
    AV1,
}

impl CodecType {
    /// The video codec this encoder produces.
    pub fn video_codec(self) -> (r: VideoCodec)
        ensures
            r == codec_of(self),
    {
        match self {
            CodecType::H264 => VideoCodec::H264,
            CodecType::AV1 => VideoCodec::AV1,
        }
    }
}

/// The video codec of an encoder kind.
pub open spec fn codec_of(c: CodecType) -> VideoCodec {
    match c {
        CodecType::H264 => VideoCodec::H264,
        CodecType::AV1 => VideoCodec::AV1,
    }
}

impl From<CodecType> for VideoCodec {
    fn from(val: CodecType) -> (r: VideoCodec) {
        val.video_codec()
    }
}

impl vstd::std_specs::convert::FromSpecImpl<CodecType> for VideoCodec {
    open spec fn obeys_from_spec() -> bool {
        true
    }

    open spec fn from_spec(v: CodecType) -> VideoCodec {
        codec_of(v)
    }
}

/// One encoded picture.
pub struct EncodedFrame {
    pub data: Vec<u8>,
    pub is_keyframe: bool,
}

/// The H.264 sample handed out for encoder output `data` (already in
/// Annex-B form, with `has_ps` telling whether it carries parameter sets).
///
/// A clean point or a sample with parameter sets is a keyframe. The first
/// keyframe that carries no parameter sets of its own gets the SPS and PPS
/// of the codec configuration (when known) put in front of it, each behind
/// a start code. Returns the data, the keyframe flag, and whether the first
/// keyframe has now been sent.
pub open spec fn h264_output(
    first_sent: bool,
    data: Seq<u8>,
    has_ps: bool,
    clean_point: bool,
    config: Option<(Seq<u8>, Seq<u8>)>,
) -> (Seq<u8>, bool, bool) {
    let key = clean_point || has_ps;
    if !has_ps && key && !first_sent {
        match config {
            Some((sps, pps)) => (start_code4() + sps + start_code4() + pps + data, true, true),
            None => (data, key, first_sent),
        }
    } else if has_ps {
        (data, key, true)
    } else {
        (data, key, first_sent)
    }
}

/// The keyframe bookkeeping of an H.264 hardware encoder: whether the
/// first keyframe has been sent.
pub struct H264OutputState {
    first_keyframe_sent: bool,
}

impl View for H264OutputState {
    type V = bool;

    closed spec fn view(&self) -> bool {
        self.first_keyframe_sent
    }
}

impl H264OutputState {
    /// No keyframe sent yet.
    pub fn new() -> (r: Self)
        ensures
            r@ == false,
    {
        H264OutputState { first_keyframe_sent: false }
    }

    /// Whether the codec configuration's SPS/PPS would be put in front of a
    /// sample with these properties (so the caller only fetches them then).
    pub fn needs_codec_config(&self, has_sps_pps: bool, is_clean_point: bool) -> (r: bool)
        ensures
            r == (!has_sps_pps && is_clean_point && !self@),
    {
        !has_sps_pps && is_clean_point && !self.first_keyframe_sent
    }

    /// Turns one encoder output sample into the frame to send: converts it
    /// to Annex-B, decides the keyframe flag and injects the parameter sets
    /// into the first keyframe that lacks them.
    pub fn finish(
        &mut self,
        encoded: &[u8],
        is_clean_point: bool,
        codec_config: Option<(Vec<u8>, Vec<u8>)>,
    ) -> (r: EncodedFrame)
        ensures
            ({
                let conv = mf_data_to_annexb(encoded@);
                let out = h264_output(
                    old(self)@,
                    conv.0,
                    conv.1,
                    is_clean_point,
                    match codec_config {
                        Some((s, p)) => Some((s@, p@)),
                        None => None,
                    },
                );
                &&& r.data@ == out.0
                &&& r.is_keyframe == out.1
                &&& final(self)@ == out.2
            }),
    {
        let (sample_data, has_sps_pps) = annexb_from_mf_data(encoded);
        let is_keyframe = is_clean_point || has_sps_pps;
        if !has_sps_pps && is_keyframe && !self.first_keyframe_sent {
            match codec_config {
                Some((sps, pps)) => {
                    let mut injected: Vec<u8> = Vec::new();
                    push_start_code(&mut injected);
                    append_range(&mut injected, sps.as_slice(), 0, sps.len());
                    push_start_code(&mut injected);
                    append_range(&mut injected, pps.as_slice(), 0, pps.len());
                    append_range(&mut injected, sample_data.as_slice(), 0, sample_data.len());
                    assert(sps@.subrange(0, sps@.len() as int) =~= sps@);
                    assert(pps@.subrange(0, pps@.len() as int) =~= pps@);
                    assert(sample_data@.subrange(0, sample_data@.len() as int) =~= sample_data@);
                    assert(Seq::<u8>::empty() + start_code4() =~= start_code4());
                    self.first_keyframe_sent = true;
                    EncodedFrame { data: injected, is_keyframe: true }
                },
                None => EncodedFrame { data: sample_data, is_keyframe },
            }
        } else {
            if has_sps_pps {
                self.first_keyframe_sent = true;
            }
            EncodedFrame { data: sample_data, is_keyframe }
        }
    }
}

/// Law: parameter sets are injected at most once; after the first keyframe
/// has been sent, output is passed on unchanged.
pub proof fn law_inject_at_most_once(
    data: Seq<u8>,
    has_ps: bool,
    clean_point: bool,
    config: Option<(Seq<u8>, Seq<u8>)>,
)
    ensures
        h264_output(true, data, has_ps, clean_point, config).0 == data,
        h264_output(true, data, has_ps, clean_point, config).2,
{
}

/// Law: a sample that carries parameter sets, or that follows injected
/// ones, is always marked as a keyframe; once a keyframe with parameter
/// sets has gone out, the state remembers it.
pub proof fn law_parameter_sets_mark_keyframes(
    first_sent: bool,
    data: Seq<u8>,
    clean_point: bool,
    config: Option<(Seq<u8>, Seq<u8>)>,
)
    ensures
        h264_output(first_sent, data, true, clean_point, config).1,
        h264_output(first_sent, data, true, clean_point, config).2,
        !first_sent && clean_point && config is Some ==> h264_output(
            first_sent,
            data,
            false,
            clean_point,
            config,
        ).1,
{
}

/// The AV1 sample handed out for encoder output `data`: a clean point is a
/// keyframe; the first keyframe gets the codec configuration (the sequence
/// header, when known) put in front of it. Returns the data and whether the
/// first keyframe has now been sent.
pub open spec fn av1_output(
    first_sent: bool,
    data: Seq<u8>,
    clean_point: bool,
    config: Option<Seq<u8>>,
) -> (Seq<u8>, bool) {
    if clean_point && !first_sent {
        (
            match config {
                Some(c) => c + data,
                None => data,
            },
            true,
        )
    } else {
        (data, first_sent)
    }
}

/// The keyframe bookkeeping of the AV1 hardware encoder: whether the first
/// keyframe has been sent.
pub struct Av1OutputState {
    first_keyframe_sent: bool,
}

impl View for Av1OutputState {
    type V = bool;

    closed spec fn view(&self) -> bool {
        self.first_keyframe_sent
    }
}

impl Av1OutputState {
    /// No keyframe sent yet.
    pub fn new() -> (r: Self)
        ensures
            r@ == false,
    {
        Av1OutputState { first_keyframe_sent: false }
    }

    /// Turns one encoder output sample into the frame to send.
    pub fn finish(&mut self, data: Vec<u8>, is_clean_point: bool, codec_config: &Option<Vec<u8>>) -> (r:
        EncodedFrame)
        ensures
            ({
                let out = av1_output(
                    old(self)@,
                    data@,
                    is_clean_point,
                    match codec_config {
                        Some(c) => Some(c@),
                        None => None,
                    },
                );
                &&& r.data@ == out.0
                &&& r.is_keyframe == is_clean_point
                &&& final(self)@ == out.1
            }),
    {
        if is_clean_point && !self.first_keyframe_sent {
            self.first_keyframe_sent = true;
            match codec_config {
                Some(config) => {
                    let mut injected: Vec<u8> = Vec::new();
                    append_range(&mut injected, config.as_slice(), 0, config.len());
                    append_range(&mut injected, data.as_slice(), 0, data.len());
                    assert(config@.subrange(0, config@.len() as int) =~= config@);
                    assert(data@.subrange(0, data@.len() as int) =~= data@);
                    assert(Seq::<u8>::empty() + config@ =~= config@);
                    EncodedFrame { data: injected, is_keyframe: true }
                },
                None => EncodedFrame { data, is_keyframe: true },
            }
        } else {
            EncodedFrame { data, is_keyframe: is_clean_point }
        }
    }
}

/// Law: the AV1 sequence header goes out at most once: after the first
/// keyframe every sample is passed on unchanged.
pub proof fn law_av1_config_at_most_once(
    data: Seq<u8>,
    clean_point: bool,
    config: Option<Seq<u8>>,
)
    ensures
        av1_output(true, data, clean_point, config) == (data, true),
{
}

/// Law: an H.264 sample is a keyframe exactly when it is a clean point or
/// carries parameter sets, whatever was sent before and whatever the codec
/// configuration; in particular a sample that is neither never is one.
pub proof fn law_keyframe_iff_clean_point_or_parameter_sets(
    first_sent: bool,
    data: Seq<u8>,
    has_ps: bool,
    clean_point: bool,
    config: Option<(Seq<u8>, Seq<u8>)>,
)
    ensures
        h264_output(first_sent, data, has_ps, clean_point, config).1 == (clean_point || has_ps),
{
}

} // verus!
