//! Audio frame handling: channel conversion, 10 ms framing, the mock
//! capture clock and the accumulation of captured samples into frames.
use vstd::prelude::*;

verus! {

/// Opus audio encoder factory (48 kHz stereo, 10 ms frames).
pub struct OpusEncoderFactory;

impl OpusEncoderFactory {
    pub fn new() -> (r: Self) {
        OpusEncoderFactory
    }
}

/// Samples in one 10 ms stereo frame at 48 kHz (480 per channel).
pub const SAMPLES_PER_FRAME_STEREO: usize = 960;

/// Length of one frame in microseconds.
pub const FRAME_DURATION_US: u64 = 10_000;

/// `out` is `s` converted to interleaved stereo from `ch` channels: stereo
/// is kept, mono is duplicated into both channels, and from three or more
/// channels the first two of every whole frame are kept.
pub open spec fn is_stereo_of<T>(out: Seq<T>, s: Seq<T>, ch: int) -> bool {
    if ch == 2 {
        out == s
    } else if ch == 1 {
        &&& out.len() == 2 * s.len()
        &&& forall|m: int| 0 <= m < s.len() ==> #[trigger] out[2 * m] == s[m] && out[2 * m + 1] == s[m]
    } else {
        &&& out.len() == 2 * (s.len() as int / ch)
        &&& forall|f: int|
            0 <= f < s.len() as int / ch ==> #[trigger] out[2 * f] == s[f * ch] && out[2 * f + 1] == s[f * ch
                + 1]
    }
}

/// Converts interleaved samples with `src_channels` channels to stereo.
pub fn convert_to_stereo<T: Copy>(samples: &[T], src_channels: u16) -> (r: Vec<T>)
    requires
        src_channels >= 1,
        samples@.len() * 2 <= usize::MAX,
    ensures
        is_stereo_of(r@, samples@, src_channels as int),
{
    let n = samples.len();
    let mut output: Vec<T> = Vec::new();
    if src_channels == 2 {
        let mut i: usize = 0;
        while i < n
            invariant
                n == samples@.len(),
                0 <= i <= n,
                output@ =~= samples@.take(i as int),
            decreases n - i,
        {
            output.push(samples[i]);
            i += 1;
        }
        assert(samples@.take(n as int) =~= samples@);
    } else if src_channels == 1 {
        let mut i: usize = 0;
        while i < n
            invariant
                n == samples@.len(),
                n * 2 <= usize::MAX,
                0 <= i <= n,
                output@.len() == 2 * i,
                forall|m: int|
                    0 <= m < i ==> #[trigger] output@[2 * m] == samples@[m] && output@[2 * m + 1]
                        == samples@[m],
            decreases n - i,
        {
            let sample = samples[i];
            let ghost prev = output@;
            output.push(sample);
            output.push(sample);
            assert forall|m: int| 0 <= m < i + 1 implies #[trigger] output@[2 * m] == samples@[m]
                && output@[2 * m + 1] == samples@[m] by {
                if m < i {
                    assert(output@[2 * m] == prev[2 * m]);
                    assert(output@[2 * m + 1] == prev[2 * m + 1]);
                }
            }
            i += 1;
        }
    } else {
        let ch = src_channels as usize;
        let frames = n / ch;
        let mut f: usize = 0;
        let mut base: usize = 0;
        proof {
            assert(frames * ch <= n) by (nonlinear_arith)
                requires
                    frames == n / ch,
                    ch > 0,
            ;
        }
        while f < frames
            invariant
                n == samples@.len(),
                ch == src_channels,
                ch >= 3,
                frames == n / ch,
                frames * ch <= n,
                0 <= f <= frames,
                base == f * ch,
                output@.len() == 2 * f,
                forall|g: int|
                    0 <= g < f ==> #[trigger] output@[2 * g] == samples@[g * ch] && output@[2 * g
                        + 1] == samples@[g * ch + 1],
            decreases frames - f,
        {
            proof {
                assert(f * ch + ch <= frames * ch) by (nonlinear_arith)
                    requires
                        f < frames,
                        ch > 0,
                ;
                assert((f + 1) * ch == f * ch + ch) by (nonlinear_arith);
            }
            let ghost prev = output@;
            output.push(samples[base]);
            output.push(samples[base + 1]);
            assert forall|g: int| 0 <= g < f + 1 implies #[trigger] output@[2 * g] == samples@[g
                * ch] && output@[2 * g + 1] == samples@[g * ch + 1] by {
                if g < f {
                    assert(output@[2 * g] == prev[2 * g]);
                    assert(output@[2 * g + 1] == prev[2 * g + 1]);
                }
            }
            f += 1;
            base += ch;
        }
    }
    output
}

/// `frames` is `s` cut into frames of `len` samples, the last one padded
/// with `pad`: exactly as many frames as needed to hold every sample.
pub open spec fn is_framing_of<T>(frames: Seq<Vec<T>>, s: Seq<T>, len: int, pad: T) -> bool {
    &&& frames.len() * len >= s.len()
    &&& (frames.len() == 0 || (frames.len() - 1) * len < s.len())
    &&& forall|f: int| 0 <= f < frames.len() ==> (#[trigger] frames[f])@.len() == len
    &&& forall|f: int, k: int|
        0 <= f < frames.len() && 0 <= k < len ==> #[trigger] frames[f]@[k] == if f * len + k
            < s.len() {
            s[f * len + k]
        } else {
            pad
        }
}

/// Splits interleaved samples into frames of `frame_len` samples; an
/// incomplete last frame is filled up with `pad`.
pub fn split_into_frames<T: Copy>(samples: &[T], frame_len: usize, pad: T) -> (r: Vec<Vec<T>>)
    requires
        frame_len > 0,
        samples@.len() + frame_len <= usize::MAX,
    ensures
        is_framing_of(r@, samples@, frame_len as int, pad),
{
    let n = samples.len();
    let mut frames: Vec<Vec<T>> = Vec::new();
    let mut start: usize = 0;
    assert(frames@.len() * frame_len == 0);
    while start < n
        invariant
            n == samples@.len(),
            n + frame_len <= usize::MAX,
            frame_len > 0,
            start == frames@.len() * frame_len,
            frames@.len() == 0 || (frames@.len() - 1) * frame_len < n,
            start <= n || frames@.len() * frame_len >= n,
            forall|f: int| 0 <= f < frames@.len() ==> (#[trigger] frames@[f])@.len() == frame_len,
            forall|f: int, k: int|
                0 <= f < frames@.len() && 0 <= k < frame_len ==> #[trigger] frames@[f]@[k] == if f
                    * frame_len + k < n {
                    samples@[f * frame_len + k]
                } else {
                    pad
                },
        decreases n + frame_len - start,
    {
        let mut frame: Vec<T> = Vec::new();
        let mut k: usize = 0;
        while k < frame_len
            invariant
                n == samples@.len(),
                start < n,
                n + frame_len <= usize::MAX,
                0 <= k <= frame_len,
                frame@.len() == k,
                forall|q: int|
                    0 <= q < k ==> #[trigger] frame@[q] == if start + q < n {
                        samples@[start + q]
                    } else {
                        pad
                    },
            decreases frame_len - k,
        {
            if start + k < n {
                frame.push(samples[start + k]);
            } else {
                frame.push(pad);
            }
            k += 1;
        }
        let ghost f_old = frames@.len();
        frames.push(frame);
        proof {
            assert((f_old + 1) * frame_len == f_old * frame_len + frame_len) by (nonlinear_arith);
            assert forall|f: int, q: int|
                0 <= f < frames@.len() && 0 <= q < frame_len implies #[trigger] frames@[f]@[q]
                == if f * frame_len + q < n {
                samples@[f * frame_len + q]
            } else {
                pad
            } by {
                if f == f_old {
                    assert(f * frame_len == start);
                }
            }
        }
        start += frame_len;
    }
    frames
}

/// The clock of the mock audio capture: while capturing, every 10 ms tick
/// emits the next prerecorded frame (looping) with a timestamp 10 ms after
/// the previous one.
pub struct MockAudioClock {
    capturing: bool,
    frame_index: usize,
    timestamp_us: u64,
    frame_count: usize,
}

/// The clock seen as (capturing, next frame index, next timestamp, number
/// of prerecorded frames).
pub struct MockAudioClockView {
    pub capturing: bool,
    pub frame_index: int,
    pub timestamp_us: int,
    pub frame_count: int,
}

/// One tick: while capturing, the frame to send (index into the recording
/// and timestamp) and the advanced clock; otherwise nothing.
pub open spec fn clock_tick(c: MockAudioClockView) -> (Option<(int, int)>, MockAudioClockView) {
    if c.capturing {
        (
            Some((c.frame_index % c.frame_count, c.timestamp_us)),
            MockAudioClockView {
                frame_index: (c.frame_index + 1) % (usize::MAX + 1),
                timestamp_us: (c.timestamp_us + 10_000) % 0x1_0000_0000_0000_0000,
                ..c
            },
        )
    } else {
        (None, c)
    }
}

impl View for MockAudioClock {
    type V = MockAudioClockView;

    closed spec fn view(&self) -> MockAudioClockView {
        MockAudioClockView {
            capturing: self.capturing,
            frame_index: self.frame_index as int,
            timestamp_us: self.timestamp_us as int,
            frame_count: self.frame_count as int,
        }
    }
}

impl MockAudioClock {
    pub closed spec fn wf(&self) -> bool {
        self.frame_count > 0 && usize::MAX <= u64::MAX
    }

    /// A stopped clock over a recording of `frame_count` frames.
    pub fn new(frame_count: usize) -> (r: Self)
        requires
            frame_count > 0,
        ensures
            r.wf(),
            r@ == (MockAudioClockView {
                capturing: false,
                frame_index: 0,
                timestamp_us: 0,
                frame_count: frame_count as int,
            }),
    {
        MockAudioClock { capturing: false, frame_index: 0, timestamp_us: 0, frame_count }
    }

    /// Starts capturing from the first frame at timestamp 0.
    pub fn start(&mut self)
        requires
            old(self).wf(),
        ensures
            final(self).wf(),
            final(self)@ == (MockAudioClockView {
                capturing: true,
                frame_index: 0,
                timestamp_us: 0,
                ..old(self)@
            }),
    {
        self.capturing = true;
        self.frame_index = 0;
        self.timestamp_us = 0;
    }

    /// Stops capturing; position and timestamp are kept.
    pub fn stop(&mut self)
        requires
            old(self).wf(),
        ensures
            final(self).wf(),
            final(self)@ == (MockAudioClockView { capturing: false, ..old(self)@ }),
    {
        self.capturing = false;
    }

    /// Advances the clock by one 10 ms tick.
    pub fn tick(&mut self) -> (r: Option<(usize, u64)>)
        requires
            old(self).wf(),
        ensures
            final(self).wf(),
            final(self)@ == clock_tick(old(self)@).1,
            match r {
                None => clock_tick(old(self)@).0 is None,
                Some((i, ts)) => clock_tick(old(self)@).0 == Some((i as int, ts as int)),
            },
    {
        if self.capturing {
            let idx = self.frame_index % self.frame_count;
            let ts = self.timestamp_us;
            self.frame_index = self.frame_index.wrapping_add(1);
            self.timestamp_us = self.timestamp_us.wrapping_add(FRAME_DURATION_US);
            Some((idx, ts))
        } else {
            None
        }
    }
}

/// Law: while capturing, consecutive ticks emit timestamps exactly 10 ms
/// apart (until the 64-bit microsecond counter wraps), so timestamps
/// increase strictly.
pub proof fn law_timestamps_increase(c: MockAudioClockView)
    requires
        c.capturing,
        c.frame_count > 0,
        0 <= c.timestamp_us,
        c.timestamp_us + 10_000 < 0x1_0000_0000_0000_0000,
    ensures
        clock_tick(clock_tick(c).1).0 matches Some((_, t2)) && clock_tick(c).0 matches Some(
            (_, t1),
        ) && t2 == t1 + 10_000 && t1 < t2,
{
}

/// Law: the recording loops; frame indices run through the recording and
/// start over after its last frame.
pub proof fn law_frames_loop(c: MockAudioClockView)
    requires
        c.capturing,
        c.frame_count > 0,
        0 <= c.frame_index,
        c.frame_index + 1 <= usize::MAX,
    ensures
        clock_tick(c).0 matches Some((i, _)) && 0 <= i < c.frame_count,
        clock_tick(clock_tick(c).1).0 matches Some((i2, _)) && i2 == (c.frame_index + 1)
            % c.frame_count,
{
    assert((c.frame_index + 1) % (usize::MAX + 1) == c.frame_index + 1) by (nonlinear_arith)
        requires
            0 <= c.frame_index + 1 <= usize::MAX,
    ;
}

/// Collects captured samples and hands them out in frames of a fixed size.
pub struct FrameAccumulator<T> {
    pending: Vec<T>,
}

impl<T: Copy> View for FrameAccumulator<T> {
    type V = Seq<T>;

    closed spec fn view(&self) -> Seq<T> {
        self.pending@
    }
}

impl<T: Copy> FrameAccumulator<T> {
    /// An accumulator holding nothing.
    pub fn new() -> (r: Self)
        ensures
            r@ == Seq::<T>::empty(),
    {
        FrameAccumulator { pending: Vec::new() }
    }

    /// Appends captured samples.
    pub fn push_samples(&mut self, data: &[T])
        ensures
            final(self)@ == old(self)@ + data@,
    {
        let mut i: usize = 0;
        while i < data.len()
            invariant
                0 <= i <= data@.len(),
                self.pending@ =~= old(self)@ + data@.take(i as int),
            decreases data@.len() - i,
        {
            self.pending.push(data[i]);
            i += 1;
        }
        assert(data@.take(data@.len() as int) =~= data@);
    }

    /// Number of samples held.
    pub fn len(&self) -> (r: usize)
        ensures
            r == self@.len(),
    {
        self.pending.len()
    }

    /// Takes the oldest `frame_len` samples when that many are held.
    pub fn pop_frame(&mut self, frame_len: usize) -> (r: Option<Vec<T>>)
        ensures
            old(self)@.len() >= frame_len ==> (r matches Some(f) && f@ == old(self)@.take(
                frame_len as int,
            ) && final(self)@ == old(self)@.skip(frame_len as int)),
            old(self)@.len() < frame_len ==> (r is None && final(self)@ == old(self)@),
    {
        let n = self.pending.len();
        if n < frame_len {
            return None;
        }
        let mut frame: Vec<T> = Vec::new();
        let mut rest: Vec<T> = Vec::new();
        let mut i: usize = 0;
        while i < n
            invariant
                n == self.pending@.len(),
                frame_len <= n,
                0 <= i <= n,
                frame@ =~= self.pending@.take(if i < frame_len {
                    i as int
                } else {
                    frame_len as int
                }),
                rest@ =~= if i <= frame_len {
                    Seq::<T>::empty()
                } else {
                    self.pending@.subrange(frame_len as int, i as int)
                },
            decreases n - i,
        {
            if i < frame_len {
                frame.push(self.pending[i]);
            } else {
                rest.push(self.pending[i]);
            }
            i += 1;
        }
        self.pending = rest;
        Some(frame)
    }
}

/// Law: framing loses and reorders nothing: a popped frame followed by what
/// remains is exactly what was held.
pub proof fn law_pop_keeps_order<T>(held: Seq<T>, frame_len: int)
    requires
        0 <= frame_len <= held.len(),
    ensures
        held.take(frame_len) + held.skip(frame_len) == held,
{
    assert(held.take(frame_len) + held.skip(frame_len) =~= held);
}

/// Sample format of a WAV recording, as far as the mock capture accepts it.
#[derive(Debug, Clone, Copy, PartialEq, Eq, Structural)]
pub enum WavSampleKind {
    Float,
    Int16,
    Int32,
}

/// Why a WAV recording is refused.
#[derive(Debug, Clone, Copy, PartialEq, Eq, Structural)]
pub enum WavSpecError {
    /// The bytes are not a WAVE file that can be read.
    Malformed,
    /// More than 192 kHz.
    SampleRateTooHigh(u32),
    /// No channels, or more than eight.
    InvalidChannelCount(u16),
    /// Integer samples of another width than 16 or 32 bits.
    UnsupportedBitDepth(u16),
}

/// The verdict on a WAV header: at most 192 kHz, one to eight channels, and
/// float samples or 16/32-bit integers; the checks are made in this order.
pub open spec fn wav_spec_check(sample_rate: u32, channels: u16, is_float: bool, bits_per_sample: u16) -> Result<
    WavSampleKind,
    WavSpecError,
> {
    if sample_rate > 192000 {
        Err(WavSpecError::SampleRateTooHigh(sample_rate))
    } else if channels == 0 || channels > 8 {
        Err(WavSpecError::InvalidChannelCount(channels))
    } else if is_float {
        Ok(WavSampleKind::Float)
    } else if bits_per_sample == 16 {
        Ok(WavSampleKind::Int16)
    } else if bits_per_sample == 32 {
        Ok(WavSampleKind::Int32)
    } else {
        Err(WavSpecError::UnsupportedBitDepth(bits_per_sample))
    }
}

/// Checks the header of a WAV recording.
pub fn check_wav_spec(sample_rate: u32, channels: u16, is_float: bool, bits_per_sample: u16) -> (r:
    Result<WavSampleKind, WavSpecError>)
    ensures
        r == wav_spec_check(sample_rate, channels, is_float, bits_per_sample),
{
    if sample_rate > 192000 {
        return Err(WavSpecError::SampleRateTooHigh(sample_rate));
    }
    if channels == 0 || channels > 8 {
        return Err(WavSpecError::InvalidChannelCount(channels));
    }
    if is_float {
        Ok(WavSampleKind::Float)
    } else if bits_per_sample == 16 {
        Ok(WavSampleKind::Int16)
    } else if bits_per_sample == 32 {
        Ok(WavSampleKind::Int32)
    } else {
        Err(WavSpecError::UnsupportedBitDepth(bits_per_sample))
    }
}

#[verifier::external_type_specification]
#[verifier::external_body]
pub struct ExWavError(hound::Error);

/// The header that hound reads from the bytes of a WAVE file, as (sample
/// rate, channels, bits per sample, float samples), or `None` when hound
/// refuses the bytes.
pub uninterp spec fn wav_header(bytes: Seq<u8>) -> Option<(u32, u16, u16, bool)>;

/// hound's `WavReader::new` over the bytes, then `WavReader::spec`. The
/// header it finds depends on the bytes alone; what it is, is left to
/// hound and named `wav_header`.
#[verifier::external_body]
fn read_wav_header(bytes: &[u8]) -> (r: Result<(u32, u16, u16, bool), hound::Error>)
    ensures
        match r {
            Ok(h) => wav_header(bytes@) == Some(h),
            Err(_) => wav_header(bytes@) is None,
        },
{
    match hound::WavReader::new(std::io::Cursor::new(bytes)) {
        Ok(reader) => {
            let spec = reader.spec();
            let is_float = match spec.sample_format {
                hound::SampleFormat::Float => true,
                hound::SampleFormat::Int => false,
            };
            Ok((spec.sample_rate, spec.channels, spec.bits_per_sample, is_float))
        },
        Err(e) => Err(e),
    }
}

/// Reads the header of an embedded WAVE recording and decides how its
/// samples are to be read.
pub fn read_wav_format(bytes: &[u8]) -> (r: Result<WavSampleKind, WavSpecError>)
    ensures
        r == match wav_header(bytes@) {
            None => Err(WavSpecError::Malformed),
            Some((rate, channels, bits, is_float)) => wav_spec_check(rate, channels, is_float, bits),
        },
{
    match read_wav_header(bytes) {
        Ok((rate, channels, bits, is_float)) => check_wav_spec(rate, channels, is_float, bits),
        Err(_) => Err(WavSpecError::Malformed),
    }
}

} // verus!
