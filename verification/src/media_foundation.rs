//! Media Foundation encoder plumbing that is plain computation: attribute
//! packing, frame timing, encode sizes and the encoder factories.
use vstd::prelude::*;
use crate::core_types::VideoCodec;

verus! {

/// `MF_MT_FRAME_SIZE` packs the width into the upper and the height into
/// the lower 32 bits.
pub open spec fn packed_frame_size(width: u32, height: u32) -> int {
    width * 0x1_0000_0000 + height
}

/// Packs a frame size into one 64-bit media-type attribute.
pub fn pack_frame_size(width: u32, height: u32) -> (r: u64)
    ensures
        r == packed_frame_size(width, height),
{
    let w = width as u64;
    let h = height as u64;
    assert(w < 0x1_0000_0000 && h < 0x1_0000_0000 ==> (w << 32) | h == w * 0x1_0000_0000 + h)
        by (bit_vector);
    (w << 32) | h
}

/// Unpacks a 64-bit frame-size attribute into width and height.
pub fn unpack_frame_size(frame_size: u64) -> (r: (u32, u32))
    ensures
        r.0 == frame_size / 0x1_0000_0000,
        r.1 == frame_size % 0x1_0000_0000,
{
    assert(frame_size >> 32 == frame_size / 0x1_0000_0000) by (bit_vector);
    assert(frame_size & 0xFFFF_FFFF == frame_size % 0x1_0000_0000) by (bit_vector);
    ((frame_size >> 32) as u32, (frame_size & 0xFFFF_FFFF) as u32)
}

/// Law: unpacking a packed frame size gives back width and height.
pub proof fn law_frame_size_roundtrip(width: u32, height: u32)
    ensures
        packed_frame_size(width, height) / 0x1_0000_0000 == width,
        packed_frame_size(width, height) % 0x1_0000_0000 == height,
{
    let v = packed_frame_size(width, height);
    assert(v / 0x1_0000_0000 == width && v % 0x1_0000_0000 == height) by (nonlinear_arith)
        requires
            v == width * 0x1_0000_0000 + height,
            0 <= height < 0x1_0000_0000,
            width >= 0,
    ;
}

/// The `MF_MT_FRAME_RATE` attribute for 60 frames per second (60/1).
pub fn frame_rate_60fps() -> (r: u64)
    ensures
        r == 60 * 0x1_0000_0000 + 1,
{
    let r = (60u64 << 32) | 1u64;
    assert((60u64 << 32) | 1u64 == 257698037761u64) by (bit_vector);
    r
}

/// A dimension rounded down to an even number, as the encoders need.
pub fn even_dimension(v: u32) -> (r: u32)
    ensures
        r == v - v % 2,
{
    (v / 2) * 2
}

/// The encode dimension of the hardware AV1 encoder: rounded down to a
/// multiple of 16 (many hardware encoders need it), and at least 16.
pub fn av1_encode_dimension(v: u32) -> (r: u32)
    ensures
        r == if v - v % 16 < 16 {
            16
        } else {
            v - v % 16
        },
{
    let aligned = v / 16 * 16;
    if aligned < 16 {
        16
    } else {
        aligned
    }
}

/// Duration of a frame in nanoseconds, from its capture timestamp and the
/// previous one (both in 100 ns units): the difference, at least one unit,
/// saturating at the largest value; 16 ms for the first frame.
pub open spec fn frame_duration_ns_spec(prev: Option<u64>, ts: u64) -> int {
    match prev {
        None => 16_000_000,
        Some(p) => {
            let delta = if ts > p && ts - p > 1 {
                ts - p
            } else {
                1
            };
            if delta * 100 > u64::MAX {
                u64::MAX as int
            } else {
                delta * 100
            }
        },
    }
}

/// Computes the duration of a frame from consecutive capture timestamps.
pub fn frame_duration_ns(prev: Option<u64>, ts: u64) -> (r: u64)
    ensures
        r == frame_duration_ns_spec(prev, ts),
{
    match prev {
        None => 16_000_000,
        Some(p) => {
            let diff = ts.saturating_sub(p);
            let delta = if diff > 1 {
                diff
            } else {
                1
            };
            match delta.checked_mul(100) {
                Some(v) => v,
                None => u64::MAX,
            }
        },
    }
}

/// Which H.264 encoder a factory runs.
#[derive(Debug, Clone, Copy, PartialEq, Eq, Structural)]
pub enum H264Backend {
    MediaFoundation,
    OpenH264,
}

/// H.264 encoder factory that uses Media Foundation when it is available
/// and falls back to OpenH264 otherwise.
pub struct MediaFoundationH264EncoderFactory {
    use_mf: bool,
}

impl MediaFoundationH264EncoderFactory {
    /// A factory for a system where Media Foundation's H.264 encoder is
    /// (`use_mf`) or is not available.
    pub fn new(use_mf: bool) -> (r: Self)
        ensures
            r.use_media_foundation() == use_mf,
    {
        MediaFoundationH264EncoderFactory { use_mf }
    }

    /// Whether the Media Foundation encoder is used.
    #[verifier::when_used_as_spec(spec_use_media_foundation)]
    pub fn use_media_foundation(&self) -> (r: bool)
        ensures
            r == self.spec_use_media_foundation(),
    {
        self.use_mf
    }

    pub closed spec fn spec_use_media_foundation(&self) -> bool {
        self.use_mf
    }

    /// The encoder the factory starts.
    pub fn backend(&self) -> (r: H264Backend)
        ensures
            r == if self.use_media_foundation() {
                H264Backend::MediaFoundation
            } else {
                H264Backend::OpenH264
            },
    {
        if self.use_mf {
            H264Backend::MediaFoundation
        } else {
            H264Backend::OpenH264
        }
    }

    /// The codec produced: H.264.
    pub fn codec(&self) -> (r: VideoCodec)
        ensures
            r == VideoCodec::H264,
    {
        VideoCodec::H264
    }
}

/// AV1 encoder factory for asynchronous Media Foundation hardware encoders.
pub struct MediaFoundationAV1EncoderFactory;

impl MediaFoundationAV1EncoderFactory {
    pub fn new() -> (r: Self) {
        MediaFoundationAV1EncoderFactory
    }

    /// The codec produced: AV1.
    pub fn codec(&self) -> (r: VideoCodec)
        ensures
            r == VideoCodec::AV1,
    {
        VideoCodec::AV1
    }
}

/// One media type offered by an encoder: whether its major type is video,
/// and its subtype GUID (as a 128-bit number).
pub type OfferedType = (bool, u128);

/// An offered type is video of the wanted subtype.
pub open spec fn is_wanted_type(t: OfferedType, subtype: u128) -> bool {
    t.0 && t.1 == subtype
}

/// Picks the output media type to configure: the first offered type (in
/// the encoder's order) that is video of the wanted subtype, or `None` when
/// there is none, which the caller reports as an error.
pub fn choose_output_type(offered: &[OfferedType], subtype: u128) -> (r: Option<usize>)
    ensures
        match r {
            Some(i) => {
                &&& i < offered@.len()
                &&& is_wanted_type(offered@[i as int], subtype)
                &&& forall|k: int| 0 <= k < i ==> !is_wanted_type(#[trigger] offered@[k], subtype)
            },
            None => forall|k: int|
                0 <= k < offered@.len() ==> !is_wanted_type(#[trigger] offered@[k], subtype),
        },
{
    let mut i: usize = 0;
    while i < offered.len()
        invariant
            0 <= i <= offered@.len(),
            forall|k: int| 0 <= k < i ==> !is_wanted_type(#[trigger] offered@[k], subtype),
        decreases offered@.len() - i,
    {
        let (is_video, sub) = offered[i];
        if is_video && sub == subtype {
            return Some(i);
        }
        i += 1;
    }
    None
}

/// Rounds of asking the synchronous encoder for output before giving up.
pub const MAX_OUTPUT_ROUNDS: usize = 100;

/// What asking the encoder for output gave.
#[derive(Debug, Clone, Copy, PartialEq, Eq, Structural)]
pub enum OutputPoll {
    /// A sample (its bytes are appended, when it has any).
    Sample,
    /// Success without a sample.
    NoSample,
    /// "Needs more input": all output has been taken.
    NeedMoreInput,
    /// The output stream changed.
    StreamChange,
    /// Any other failure.
    Failed,
}

/// What the caller does next.
#[derive(Debug, Clone, Copy, PartialEq, Eq, Structural)]
pub enum DrainStep {
    /// Ask for output again.
    AskAgain,
    /// Return the data collected.
    Finish,
    /// Fail the encode.
    Fail,
}

/// Collects the output of one synchronous encode: asks again after a
/// sample (or none), stops on "needs more input" or a stream change, fails
/// on any other failure and after more than 100 rounds.
pub struct OutputDrain {
    rounds: usize,
    data: Vec<u8>,
}

impl View for OutputDrain {
    type V = (nat, Seq<u8>);

    closed spec fn view(&self) -> (nat, Seq<u8>) {
        (self.rounds as nat, self.data@)
    }
}

impl OutputDrain {
    /// Nothing asked, nothing collected.
    pub fn new() -> (r: Self)
        ensures
            r@ == (0nat, Seq::<u8>::empty()),
    {
        OutputDrain { rounds: 0, data: Vec::new() }
    }

    /// Starts a round; `false` when more than 100 rounds have been
    /// started, and the encode then fails.
    pub fn begin_round(&mut self) -> (r: bool)
        requires
            old(self)@.0 <= MAX_OUTPUT_ROUNDS,
        ensures
            final(self)@ == (old(self)@.0 + 1, old(self)@.1),
            r == (final(self)@.0 <= MAX_OUTPUT_ROUNDS),
    {
        self.rounds = self.rounds + 1;
        self.rounds <= MAX_OUTPUT_ROUNDS
    }

    /// Handles what the round gave; `bytes` are the sample's bytes (empty
    /// for anything but a sample with data).
    pub fn round_result(&mut self, poll: OutputPoll, bytes: &[u8]) -> (r: DrainStep)
        ensures
            r == match poll {
                OutputPoll::Sample | OutputPoll::NoSample => DrainStep::AskAgain,
                OutputPoll::NeedMoreInput | OutputPoll::StreamChange => DrainStep::Finish,
                OutputPoll::Failed => DrainStep::Fail,
            },
            final(self)@ == (old(self)@.0, if poll == OutputPoll::Sample {
                old(self)@.1 + bytes@
            } else {
                old(self)@.1
            }),
    {
        match poll {
            OutputPoll::Sample => {
                let mut i: usize = 0;
                while i < bytes.len()
                    invariant
                        0 <= i <= bytes@.len(),
                        self.rounds == old(self).rounds,
                        self.data@ =~= old(self)@.1 + bytes@.take(i as int),
                    decreases bytes@.len() - i,
                {
                    self.data.push(bytes[i]);
                    i += 1;
                }
                assert(bytes@.take(bytes@.len() as int) =~= bytes@);
                DrainStep::AskAgain
            },
            OutputPoll::NoSample => DrainStep::AskAgain,
            OutputPoll::NeedMoreInput => DrainStep::Finish,
            OutputPoll::StreamChange => DrainStep::Finish,
            OutputPoll::Failed => DrainStep::Fail,
        }
    }

    /// The data collected.
    pub fn into_data(self) -> (r: Vec<u8>)
        ensures
            r@ == self@.1,
    {
        self.data
    }
}

} // verus!
