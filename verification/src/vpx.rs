//! VP8/VP9 (libvpx) encoder settings: factories, target bit rate and the
//! forced keyframes after a (re)start.
use vstd::prelude::*;

verus! {

/// VP8 encoder factory (libvpx).
pub struct Vp8EncoderFactory;

impl Vp8EncoderFactory {
    pub fn new() -> (r: Self) {
        Vp8EncoderFactory
    }
}

/// VP9 encoder factory (libvpx).
pub struct Vp9EncoderFactory;

impl Vp9EncoderFactory {
    pub fn new() -> (r: Self) {
        Vp9EncoderFactory
    }
}

/// Target bit rate in kbit/s for a `width × height` stream: two bits per
/// pixel per second, at least 300 kbit/s, truncated to 32 bits.
pub open spec fn vpx_bitrate(width: u32, height: u32) -> int {
    let kbps = width * height * 2 / 1000;
    (if kbps < 300 {
        300
    } else {
        kbps
    }) % 0x1_0000_0000
}

/// Computes the constant bit rate a VPx encoder is configured with.
pub fn vpx_bitrate_kbps(width: u32, height: u32) -> (r: u32)
    requires
        width * height * 2 <= u64::MAX,
    ensures
        r == vpx_bitrate(width, height),
{
    let w = width as u64;
    let h = height as u64;
    proof {
        assert(w * h <= w * h * 2) by (nonlinear_arith)
            requires
                w >= 0,
                h >= 0,
        ;
    }
    let kbps = (w * h * 2) / 1000;
    let kbps = if kbps < 300 {
        300
    } else {
        kbps
    };
    (kbps % 0x1_0000_0000) as u32
}

/// Number of frames forced to be keyframes after the encoder is created or
/// recreated, so a freshly connected decoder settles quickly.
pub const FORCED_KEYFRAMES: usize = 3;

/// Counts down the frames that still have to be keyframes.
pub struct KeyframeForcer {
    remaining: usize,
}

impl View for KeyframeForcer {
    type V = nat;

    closed spec fn view(&self) -> nat {
        self.remaining as nat
    }
}

impl KeyframeForcer {
    /// A fresh encoder: the next three frames are keyframes.
    pub fn new() -> (r: Self)
        ensures
            r@ == FORCED_KEYFRAMES,
    {
        KeyframeForcer { remaining: FORCED_KEYFRAMES }
    }

    /// The encoder was recreated (new size): force three keyframes again.
    pub fn reset(&mut self)
        ensures
            final(self)@ == FORCED_KEYFRAMES,
    {
        self.remaining = FORCED_KEYFRAMES;
    }

    /// Whether the next frame must be a keyframe; counts it.
    pub fn next_frame_forces_keyframe(&mut self) -> (r: bool)
        ensures
            r == (old(self)@ > 0),
            final(self)@ == if old(self)@ > 0 {
                (old(self)@ - 1) as nat
            } else {
                0
            },
    {
        if self.remaining > 0 {
            self.remaining -= 1;
            true
        } else {
            false
        }
    }
}

/// One step of the countdown.
pub open spec fn forcer_step(n: nat) -> (bool, nat) {
    if n > 0 {
        (true, (n - 1) as nat)
    } else {
        (false, 0)
    }
}

/// Law: after a (re)start exactly the first three frames are forced to be
/// keyframes, and none after them.
pub proof fn law_three_forced_keyframes()
    ensures
        forcer_step(3).0,
        forcer_step(forcer_step(3).1).0,
        forcer_step(forcer_step(forcer_step(3).1).1).0,
        !forcer_step(forcer_step(forcer_step(forcer_step(3).1).1).1).0,
        forcer_step(0) == (false, 0nat),
{
}

/// `a + b`, held at the bounds of `i64` (std's `i64::saturating_add`).
pub open spec fn saturating_add_i64(a: i64, b: i64) -> int {
    if a + b > i64::MAX {
        i64::MAX as int
    } else if a + b < i64::MIN {
        i64::MIN as int
    } else {
        a + b
    }
}

fn saturating_add_i64_exec(a: i64, b: i64) -> (r: i64)
    ensures
        r == saturating_add_i64(a, b),
{
    match a.checked_add(b) {
        Some(v) => v,
        None => {
            if b > 0 {
                i64::MAX
            } else {
                i64::MIN
            }
        },
    }
}

/// The VPx encode worker seen as plain values: the size the encoder was
/// (last meant to be) made for, the presentation time of the next frame in
/// milliseconds, the keyframes still to force, and whether an encoder
/// exists.
pub struct VpxWorkerView {
    pub width: u32,
    pub height: u32,
    pub pts: int,
    pub forced_remaining: nat,
    pub has_encoder: bool,
}

/// A frame of encode size `width × height` arrived: whether the encoder
/// must be (re)created, and the worker afterwards.
pub open spec fn vpx_prepare(v: VpxWorkerView, width: u32, height: u32) -> (bool, VpxWorkerView) {
    if !v.has_encoder || width != v.width || height != v.height {
        (true, VpxWorkerView { width, height, ..v })
    } else {
        (false, v)
    }
}

/// The encoder was (re)created.
pub open spec fn vpx_created(v: VpxWorkerView) -> VpxWorkerView {
    VpxWorkerView { has_encoder: true, forced_remaining: FORCED_KEYFRAMES as nat, ..v }
}

/// A frame is about to be encoded: whether it is forced to be a keyframe,
/// and the worker afterwards.
pub open spec fn vpx_force(v: VpxWorkerView) -> (bool, VpxWorkerView) {
    let (f, n) = forcer_step(v.forced_remaining);
    (f, VpxWorkerView { forced_remaining: n, ..v })
}

/// One job of a `width × height` RGBA picture in a buffer of `rgba_len`
/// bytes, when creating the encoder and encoding succeed. A buffer shorter
/// than the picture is refused by the I420 conversion: no result, nothing
/// changes. Otherwise the result has the picture's size rounded down to
/// even numbers, tells whether the encoder was (re)created for it and
/// whether the frame was forced to be a keyframe.
pub open spec fn vpx_job(v: VpxWorkerView, rgba_len: int, width: u32, height: u32) -> (
    Option<(u32, u32, bool, bool)>,
    VpxWorkerView,
) {
    if rgba_len < width * height * 4 {
        (None, v)
    } else {
        let ew = (width - width % 2) as u32;
        let eh = (height - height % 2) as u32;
        let (create, v1) = vpx_prepare(v, ew, eh);
        let v2 = if create {
            vpx_created(v1)
        } else {
            v1
        };
        let (forced, v3) = vpx_force(v2);
        (Some((ew, eh, create, forced)), v3)
    }
}

/// The decisions of the VPx encode worker around the encoder it owns.
pub struct VpxWorker {
    width: u32,
    height: u32,
    pts: i64,
    forcer: KeyframeForcer,
    has_encoder: bool,
}

impl View for VpxWorker {
    type V = VpxWorkerView;

    closed spec fn view(&self) -> VpxWorkerView {
        VpxWorkerView {
            width: self.width,
            height: self.height,
            pts: self.pts as int,
            forced_remaining: self.forcer@,
            has_encoder: self.has_encoder,
        }
    }
}

impl VpxWorker {
    /// A worker before its first frame: no encoder, size 0×0, time 0, and
    /// three keyframes to force.
    pub fn new() -> (r: Self)
        ensures
            r@ == (VpxWorkerView {
                width: 0,
                height: 0,
                pts: 0,
                forced_remaining: FORCED_KEYFRAMES as nat,
                has_encoder: false,
            }),
    {
        VpxWorker { width: 0, height: 0, pts: 0, forcer: KeyframeForcer::new(), has_encoder: false }
    }

    /// A frame of `width × height` (the encode size of its I420 picture)
    /// arrived. When there is no encoder yet or the size changed, the new
    /// size is taken over and `true` asks the caller to (re)create the
    /// encoder; otherwise nothing changes.
    pub fn prepare_encoder(&mut self, width: u32, height: u32) -> (create: bool)
        ensures
            (create, final(self)@) == vpx_prepare(old(self)@, width, height),
            create == (!old(self)@.has_encoder || width != old(self)@.width || height != old(
                self,
            )@.height),
            final(self)@ == if create {
                VpxWorkerView { width, height, ..old(self)@ }
            } else {
                old(self)@
            },
    {
        if !self.has_encoder || width != self.width || height != self.height {
            self.width = width;
            self.height = height;
            true
        } else {
            false
        }
    }

    /// The encoder was (re)created: the next three frames are forced to be
    /// keyframes.
    pub fn encoder_created(&mut self)
        ensures
            final(self)@ == vpx_created(old(self)@),
            final(self)@ == (VpxWorkerView {
                has_encoder: true,
                forced_remaining: FORCED_KEYFRAMES as nat,
                ..old(self)@
            }),
    {
        self.has_encoder = true;
        self.forcer.reset();
    }

    /// Whether the frame about to be encoded must be a keyframe; counts it.
    pub fn next_frame_forces_keyframe(&mut self) -> (r: bool)
        ensures
            (r, final(self)@) == vpx_force(old(self)@),
            (r, final(self)@.forced_remaining) == forcer_step(old(self)@.forced_remaining),
            final(self)@ == (VpxWorkerView {
                forced_remaining: final(self)@.forced_remaining,
                ..old(self)@
            }),
    {
        self.forcer.next_frame_forces_keyframe()
    }

    /// The presentation time of the next frame.
    pub fn pts(&self) -> (r: i64)
        ensures
            r == self@.pts,
    {
        self.pts
    }

    /// A frame of `duration_ms` milliseconds was encoded: the presentation
    /// time advances by it, held at the bounds of `i64`.
    pub fn frame_encoded(&mut self, duration_ms: i64)
        ensures
            final(self)@ == (VpxWorkerView {
                pts: saturating_add_i64(old(self)@.pts as i64, duration_ms),
                ..old(self)@
            }),
    {
        self.pts = saturating_add_i64_exec(self.pts, duration_ms);
    }
}

/// Law: a job whose buffer is too short for its picture yields no result
/// and leaves the worker (and its encoder) as it was.
pub proof fn law_vpx_short_job_changes_nothing(
    v: VpxWorkerView,
    rgba_len: int,
    width: u32,
    height: u32,
)
    requires
        rgba_len < width * height * 4,
    ensures
        vpx_job(v, rgba_len, width, height) == (None::<(u32, u32, bool, bool)>, v),
{
}

/// Law: the encoder is (re)created for the first job and for every job of
/// a new encode size, and exactly the first three frames after each
/// (re)creation are forced to be keyframes; every result has the picture's
/// size rounded down to even numbers.
pub proof fn law_vpx_keyframes_after_new_size(
    v: VpxWorkerView,
    rgba_len: int,
    width: u32,
    height: u32,
)
    requires
        rgba_len >= width * height * 4,
        !v.has_encoder || v.width != width - width % 2 || v.height != height - height % 2,
    ensures
        ({
            let ew = (width - width % 2) as u32;
            let eh = (height - height % 2) as u32;
            let (o1, v1) = vpx_job(v, rgba_len, width, height);
            let (o2, v2) = vpx_job(v1, rgba_len, width, height);
            let (o3, v3) = vpx_job(v2, rgba_len, width, height);
            let (o4, v4) = vpx_job(v3, rgba_len, width, height);
            &&& o1 == Some((ew, eh, true, true))
            &&& o2 == Some((ew, eh, false, true))
            &&& o3 == Some((ew, eh, false, true))
            &&& o4 == Some((ew, eh, false, false))
        }),
{
}

} // verus!
