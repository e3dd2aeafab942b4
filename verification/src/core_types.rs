//! Types shared by the capture, encoder, audio and signalling services.
use vstd::prelude::*;
use std::sync::Arc;
use std::time::Duration;

verus! {

/// How the capture size is chosen.
#[derive(Debug, Clone, PartialEq, Eq, Structural)]
pub enum CaptureSize {
    /// Use the size of the source window.
    UseSourceSize,
    /// Scale to the given size.
    Custom { width: u32, height: u32 },
}

/// Initial or updated capture parameters.
#[derive(Debug, Clone)]
pub struct CaptureConfig {
    pub size: CaptureSize,
    pub fps: u32,
}

impl Default for CaptureConfig {
    /// Source size at 45 frames per second.
    fn default() -> (r: Self)
        ensures
            r.size == CaptureSize::UseSourceSize,
            r.fps == 45,
    {
        CaptureConfig { size: CaptureSize::UseSourceSize, fps: 45 }
    }
}

/// A still frame with its pixels in CPU memory (RGBA).
#[derive(Debug, Clone)]
pub struct ScreenshotFrame {
    pub width: u32,
    pub height: u32,
    pub data: Arc<Vec<u8>>,
    pub timestamp: u64,
}

/// The video codecs the host can encode with.
#[derive(Debug, Clone, Copy, PartialEq, Eq, Hash, Structural)]
pub enum VideoCodec {
    H264,
    AV1,
}

/// `c` with an ASCII capital letter mapped to its small letter.
pub open spec fn ascii_lower_char(c: char) -> char {
    if 'A' <= c && c <= 'Z' {
        ((c as u32) + 32) as char
    } else {
        c
    }
}

/// The text with every ASCII capital letter made small; other characters
/// are kept.
pub open spec fn ascii_lower(s: Seq<char>) -> Seq<char> {
    Seq::new(s.len(), |i: int| ascii_lower_char(s[i]))
}

/// What a codec name means: `h264`, `h.264` and `av1`, in any ASCII case;
/// anything else is refused with a message that quotes the lowered name.
pub open spec fn parse_video_codec(s: Seq<char>) -> Result<VideoCodec, Seq<char>> {
    let l = ascii_lower(s);
    if l == seq!['h', '2', '6', '4'] || l == seq!['h', '.', '2', '6', '4'] {
        Ok(VideoCodec::H264)
    } else if l == seq!['a', 'v', '1'] {
        Ok(VideoCodec::AV1)
    } else {
        Err("unsupported codec string: "@ + l)
    }
}

/// Appends one character to a `String` (std's `String::push`).
#[verifier::external_body]
fn push_char(s: &mut String, c: char)
    ensures
        final(s)@ == old(s)@.push(c),
{
    s.push(c);
}

fn lower_char(c: char) -> (r: char)
    ensures
        r == ascii_lower_char(c),
{
    if 'A' <= c && c <= 'Z' {
        ((c as u8) + 32) as char
    } else {
        c
    }
}

fn chars_equal(a: &Vec<char>, b: &[char]) -> (r: bool)
    ensures
        r == (a@ == b@),
{
    if a.len() != b.len() {
        return false;
    }
    let mut i: usize = 0;
    while i < a.len()
        invariant
            a@.len() == b@.len(),
            0 <= i <= a@.len(),
            forall|k: int| 0 <= k < i ==> a@[k] == b@[k],
        decreases a@.len() - i,
    {
        if a[i] != b[i] {
            return false;
        }
        i += 1;
    }
    assert(a@ =~= b@);
    true
}

impl VideoCodec {
    /// Parses a codec name (`h264`, `h.264` or `av1`, ignoring ASCII case).
    pub fn parse(s: &str) -> (r: Result<VideoCodec, String>)
        ensures
            match r {
                Ok(c) => parse_video_codec(s@) == Ok::<VideoCodec, Seq<char>>(c),
                Err(m) => parse_video_codec(s@) == Err::<VideoCodec, Seq<char>>(m@),
            },
    {
        let n = s.unicode_len();
        let mut lowered: Vec<char> = Vec::new();
        let mut i: usize = 0;
        while i < n
            invariant
                n == s@.len(),
                0 <= i <= n,
                lowered@ =~= ascii_lower(s@.take(i as int)),
            decreases n - i,
        {
            let c = s.get_char(i);
            lowered.push(lower_char(c));
            i += 1;
        }
        assert(s@.take(n as int) =~= s@);
        let h264 = ['h', '2', '6', '4'];
        let h_264 = ['h', '.', '2', '6', '4'];
        let av1 = ['a', 'v', '1'];
        if chars_equal(&lowered, &h264) || chars_equal(&lowered, &h_264) {
            assert(h264@ =~= seq!['h', '2', '6', '4']);
            assert(h_264@ =~= seq!['h', '.', '2', '6', '4']);
            Ok(VideoCodec::H264)
        } else if chars_equal(&lowered, &av1) {
            assert(av1@ =~= seq!['a', 'v', '1']);
            assert(h264@ =~= seq!['h', '2', '6', '4']);
            assert(h_264@ =~= seq!['h', '.', '2', '6', '4']);
            Ok(VideoCodec::AV1)
        } else {
            assert(av1@ =~= seq!['a', 'v', '1']);
            assert(h264@ =~= seq!['h', '2', '6', '4']);
            assert(h_264@ =~= seq!['h', '.', '2', '6', '4']);
            let mut msg = String::new();
            msg.append("unsupported codec string: ");
            let mut j: usize = 0;
            while j < lowered.len()
                invariant
                    0 <= j <= lowered@.len(),
                    msg@ =~= "unsupported codec string: "@ + lowered@.take(j as int),
                decreases lowered@.len() - j,
            {
                push_char(&mut msg, lowered[j]);
                j += 1;
            }
            assert(lowered@.take(lowered@.len() as int) =~= lowered@);
            Err(msg)
        }
    }
}

impl std::str::FromStr for VideoCodec {
    type Err = String;

    fn from_str(s: &str) -> (r: Result<Self, Self::Err>)
        ensures
            match r {
                Ok(c) => parse_video_codec(s@) == Ok::<VideoCodec, Seq<char>>(c),
                Err(m) => parse_video_codec(s@) == Err::<VideoCodec, Seq<char>>(m@),
            },
    {
        VideoCodec::parse(s)
    }
}

/// Error returned by a job slot that has been shut down.
#[derive(Debug, Clone, Copy, PartialEq, Eq, Structural)]
pub struct ShutdownError;

impl ShutdownError {
    /// The human-readable description of the error.
    pub fn message(&self) -> (r: String)
        ensures
            r@ == "EncodeJobSlot has been shut down"@,
    {
        "EncodeJobSlot has been shut down".to_owned()
    }
}

/// Requests to the WebRTC service.
#[derive(Debug, Clone)]
pub enum WebRtcMessage {
    SetOffer { sdp: String, codec: Option<VideoCodec> },
    AddIceCandidate {
        candidate: String,
        sdp_mid: Option<String>,
        sdp_mline_index: Option<u16>,
        username_fragment: Option<String>,
    },
    /// Trigger an ICE restart.
    TriggerIceRestart,
    /// The answer to an ICE-restart offer.
    SetAnswerForRestart { sdp: String },
}

/// Replies to the signalling service.
#[derive(Debug, Clone)]
pub enum SignalingResponse {
    Answer { sdp: String },
    Error { message: String },
    IceCandidate {
        candidate: String,
        sdp_mid: Option<String>,
        sdp_mline_index: Option<u16>,
        username_fragment: Option<String>,
    },
    IceCandidateComplete,
    /// A new offer for an ICE restart.
    OfferForRestart { sdp: String },
}

/// Settings of the local language-model server.
#[derive(Debug, Clone, PartialEq, Eq)]
pub struct LlmConfig {
    pub port: u16,
    pub model_path: Option<String>,
    pub mmproj_path: Option<String>,
}

/// Description of a screenshot sent over the data channel.
#[derive(Debug, Clone)]
pub struct ScreenshotMetadataPayload {
    pub id: String,
    pub timestamp: u64,
    pub format: String,
    pub width: u32,
    pub height: u32,
    pub size: u32,
    pub window_title: Option<String>,
    pub process_path: Option<String>,
    pub process_name: Option<String>,
    pub vndb_id: Option<String>,
    pub official_title: Option<String>,
}

/// One piece of a screenshot split for the data channel.
#[derive(Debug, Clone)]
pub struct ScreenshotChunk {
    pub id: String,
    pub seq: u32,
    pub total: u32,
    pub data: Vec<u8>,
}

/// Commands to the audio capture service.
#[derive(Debug, Clone)]
pub enum AudioCaptureMessage {
    Start { hwnd: u64 },
    Stop,
}

/// One encoded audio frame.
#[derive(Debug)]
pub struct AudioEncodeResult {
    /// Opus packet.
    pub encoded_data: Vec<u8>,
    /// Length of the frame (10 ms).
    pub duration: Duration,
    /// Whether the frame was judged silent.
    pub is_silent: bool,
}

/// Control messages to the video stream service.
#[derive(Debug, Clone)]
pub enum VideoStreamMessage {
    /// A keyframe was requested (PLI/FIR RTCP feedback).
    RequestKeyframe,
}

} // verus!
