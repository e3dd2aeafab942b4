//! Window capture: the decisions of the mock capture service (a rotating
//! single-colour test picture), its frames, and the pixel and size handling
//! of the GDI capture.
use vstd::prelude::*;
use crate::core_types::{CaptureConfig, CaptureSize};

verus! {

/// A captured RGBA frame.
#[derive(Debug)]
pub struct Frame {
    pub width: u32,
    pub height: u32,
    pub data: Vec<u8>,
    pub timestamp: u64,
}

/// Commands to a capture service.
#[derive(Debug, Clone)]
pub enum CaptureCommand {
    Start { hwnd: u64 },
    Stop,
    UpdateConfig { size: CaptureSize, fps: u32 },
}

/// Number of colours in the mock palette, and of pregenerated frames.
pub const PALETTE_LEN: usize = 10;

/// Frames each colour is shown for (about 1.3 s at 45 fps).
pub const COLOR_DWELL_FRAMES: u64 = 60;

/// Colour `i` of the mock palette: red, green, blue, white, yellow, cyan,
/// magenta, orange, purple, black.
pub open spec fn palette(i: int) -> (u8, u8, u8) {
    if i == 0 {
        (255, 0, 0)
    } else if i == 1 {
        (0, 255, 0)
    } else if i == 2 {
        (0, 0, 255)
    } else if i == 3 {
        (255, 255, 255)
    } else if i == 4 {
        (255, 255, 0)
    } else if i == 5 {
        (0, 255, 255)
    } else if i == 6 {
        (255, 0, 255)
    } else if i == 7 {
        (255, 128, 0)
    } else if i == 8 {
        (128, 0, 255)
    } else {
        (0, 0, 0)
    }
}

fn palette_color(i: usize) -> (r: (u8, u8, u8))
    requires
        i < PALETTE_LEN,
    ensures
        r == palette(i as int),
{
    if i == 0 {
        (255, 0, 0)
    } else if i == 1 {
        (0, 255, 0)
    } else if i == 2 {
        (0, 0, 255)
    } else if i == 3 {
        (255, 255, 255)
    } else if i == 4 {
        (255, 255, 0)
    } else if i == 5 {
        (0, 255, 255)
    } else if i == 6 {
        (255, 0, 255)
    } else if i == 7 {
        (255, 128, 0)
    } else if i == 8 {
        (128, 0, 255)
    } else {
        (0, 0, 0)
    }
}

/// The size of a mock frame: the custom size, or 1280×720 for the source
/// size.
pub open spec fn mock_frame_size(size: CaptureSize) -> (u32, u32) {
    match size {
        CaptureSize::UseSourceSize => (1280, 720),
        CaptureSize::Custom { width, height } => (width, height),
    }
}

/// The RGBA buffer of a mock frame fits the 32-bit size computation.
pub open spec fn mock_size_fits(size: CaptureSize) -> bool {
    mock_frame_size(size).0 * mock_frame_size(size).1 * 4 <= u32::MAX
}

/// Every pixel of `data` is `(r, g, b, 255)`.
pub open spec fn is_solid(data: Seq<u8>, c: (u8, u8, u8)) -> bool {
    &&& data.len() % 4 == 0
    &&& forall|p: int|
        0 <= p < data.len() / 4 ==> #[trigger] data[4 * p] == c.0 && data[4 * p + 1] == c.1 && data[4
            * p + 2] == c.2 && data[4 * p + 3] == 255
}

impl Frame {
    /// A mock frame of the configured size in palette colour
    /// `frame_index % 10`, stamped with `timestamp`.
    pub fn generate_dummy_frame(config: &CaptureConfig, frame_index: u64, timestamp: u64) -> (r:
        Frame)
        requires
            mock_size_fits(config.size),
        ensures
            (r.width, r.height) == mock_frame_size(config.size),
            r.data@.len() == r.width * r.height * 4,
            is_solid(r.data@, palette(frame_index as int % 10)),
            r.timestamp == timestamp,
    {
        let (width, height): (u32, u32) = match &config.size {
            CaptureSize::UseSourceSize => (1280, 720),
            CaptureSize::Custom { width, height } => (*width, *height),
        };
        proof {
            assert(width * height <= width * height * 4) by (nonlinear_arith)
                requires
                    width >= 0,
                    height >= 0,
            ;
        }
        let size = (width * height * 4) as usize;
        assert(size % 4 == 0) by (nonlinear_arith)
            requires
                size == width * height * 4,
        ;
        let color_index = (frame_index % 10) as usize;
        let (r, g, b) = palette_color(color_index);
        let pixels = size / 4;
        let mut data: Vec<u8> = Vec::new();
        let mut p: usize = 0;
        while p < pixels
            invariant
                pixels == size / 4,
                size % 4 == 0,
                0 <= p <= pixels,
                data@.len() == 4 * p,
                forall|q: int|
                    0 <= q < p ==> #[trigger] data@[4 * q] == r && data@[4 * q + 1] == g && data@[4
                        * q + 2] == b && data@[4 * q + 3] == 255,
            decreases pixels - p,
        {
            let ghost prev = data@;
            data.push(r);
            data.push(g);
            data.push(b);
            data.push(255u8);
            assert forall|q: int| 0 <= q < p + 1 implies #[trigger] data@[4 * q] == r && data@[4 * q
                + 1] == g && data@[4 * q + 2] == b && data@[4 * q + 3] == 255 by {
                if q < p {
                    assert(data@[4 * q] == prev[4 * q]);
                    assert(data@[4 * q + 1] == prev[4 * q + 1]);
                    assert(data@[4 * q + 2] == prev[4 * q + 2]);
                    assert(data@[4 * q + 3] == prev[4 * q + 3]);
                }
            }
            p += 1;
        }
        assert(data@.len() / 4 == pixels);
        assert(data@.len() % 4 == 0);
        assert(is_solid(data@, (r, g, b)));
        assert(palette(frame_index as int % 10) == (r, g, b));
        Frame { width, height, data, timestamp }
    }

    /// The first `count` mock frames (palette colours in order), all
    /// stamped with `timestamp`.
    pub fn generate_frame_set(config: &CaptureConfig, count: usize, timestamp: u64) -> (r: Vec<
        Frame,
    >)
        requires
            mock_size_fits(config.size),
        ensures
            r@.len() == count,
            forall|i: int|
                0 <= i < count ==> {
                    &&& ((#[trigger] r@[i]).width, r@[i].height) == mock_frame_size(config.size)
                    &&& r@[i].data@.len() == r@[i].width * r@[i].height * 4
                    &&& is_solid(r@[i].data@, palette(i % 10))
                    &&& r@[i].timestamp == timestamp
                },
    {
        let mut frames: Vec<Frame> = Vec::new();
        let mut i: usize = 0;
        while i < count
            invariant
                mock_size_fits(config.size),
                0 <= i <= count,
                frames@.len() == i,
                forall|k: int|
                    0 <= k < i ==> {
                        &&& ((#[trigger] frames@[k]).width, frames@[k].height) == mock_frame_size(
                            config.size,
                        )
                        &&& frames@[k].data@.len() == frames@[k].width * frames@[k].height * 4
                        &&& is_solid(frames@[k].data@, palette(k % 10))
                        &&& frames@[k].timestamp == timestamp
                    },
            decreases count - i,
        {
            frames.push(Frame::generate_dummy_frame(config, i as u64, timestamp));
            i += 1;
        }
        frames
    }
}

/// Copies a frame, with a new timestamp.
fn restamp(frame: &Frame, timestamp: u64) -> (r: Frame)
    ensures
        r.width == frame.width,
        r.height == frame.height,
        r.data@ == frame.data@,
        r.timestamp == timestamp,
{
    let mut data: Vec<u8> = Vec::new();
    let mut k: usize = 0;
    while k < frame.data.len()
        invariant
            0 <= k <= frame.data@.len(),
            data@ =~= frame.data@.take(k as int),
        decreases frame.data@.len() - k,
    {
        data.push(frame.data[k]);
        k += 1;
    }
    assert(frame.data@.take(frame.data@.len() as int) =~= frame.data@);
    Frame { width: frame.width, height: frame.height, data, timestamp }
}

/// The decisions of the mock capture service: whether it is capturing, its
/// configuration, its frame counter and its pregenerated frames.
pub struct CaptureService {
    capturing: bool,
    config: CaptureConfig,
    frame_index: u64,
    frames: Vec<Frame>,
}

impl CaptureService {
    pub closed spec fn is_capturing(&self) -> bool {
        self.capturing
    }

    pub closed spec fn config_size(&self) -> CaptureSize {
        self.config.size
    }

    pub closed spec fn config_fps(&self) -> u32 {
        self.config.fps
    }

    pub closed spec fn frame_counter(&self) -> u64 {
        self.frame_index
    }

    /// The service is consistent: one pregenerated frame per palette
    /// colour, all of the configured size.
    pub closed spec fn wf(&self) -> bool {
        &&& mock_size_fits(self.config.size)
        &&& self.frames@.len() == PALETTE_LEN
        &&& forall|i: int|
            0 <= i < PALETTE_LEN ==> {
                &&& ((#[trigger] self.frames@[i]).width, self.frames@[i].height) == mock_frame_size(
                    self.config.size,
                )
                &&& self.frames@[i].data@.len() == self.frames@[i].width * self.frames@[i].height
                    * 4
                &&& is_solid(self.frames@[i].data@, palette(i))
            }
    }

    /// A stopped service with the default configuration.
    pub fn new(timestamp: u64) -> (r: Self)
        ensures
            r.wf(),
            !r.is_capturing(),
            r.config_size() == CaptureSize::UseSourceSize,
            r.config_fps() == 45,
            r.frame_counter() == 0,
    {
        let config = CaptureConfig::default();
        let frames = Frame::generate_frame_set(&config, PALETTE_LEN, timestamp);
        CaptureService { capturing: false, config, frame_index: 0, frames }
    }

    /// Interval between two frames in milliseconds: `1000 / max(fps, 1)`.
    pub fn tick_interval_ms(&self) -> (r: u64)
        ensures
            r == 1000int / (if self.config_fps() == 0 {
                1int
            } else {
                self.config_fps() as int
            }),
    {
        let fps = if self.config.fps == 0 {
            1
        } else {
            self.config.fps
        };
        1000 / (fps as u64)
    }

    /// Applies a command. A new configuration restarts the frame counter
    /// and regenerates the frames (stamped with `timestamp`).
    pub fn handle_command(&mut self, cmd: CaptureCommand, timestamp: u64)
        requires
            old(self).wf(),
            cmd matches CaptureCommand::UpdateConfig { size, .. } ==> mock_size_fits(size),
        ensures
            final(self).wf(),
            match cmd {
                CaptureCommand::Start { .. } => {
                    &&& final(self).is_capturing()
                    &&& final(self).config_size() == old(self).config_size()
                    &&& final(self).config_fps() == old(self).config_fps()
                    &&& final(self).frame_counter() == old(self).frame_counter()
                },
                CaptureCommand::Stop => {
                    &&& !final(self).is_capturing()
                    &&& final(self).config_size() == old(self).config_size()
                    &&& final(self).config_fps() == old(self).config_fps()
                    &&& final(self).frame_counter() == old(self).frame_counter()
                },
                CaptureCommand::UpdateConfig { size, fps } => {
                    &&& final(self).is_capturing() == old(self).is_capturing()
                    &&& final(self).config_size() == size
                    &&& final(self).config_fps() == fps
                    &&& final(self).frame_counter() == 0
                },
            },
    {
        match cmd {
            CaptureCommand::Start { hwnd: _ } => {
                self.capturing = true;
            },
            CaptureCommand::Stop => {
                self.capturing = false;
            },
            CaptureCommand::UpdateConfig { size, fps } => {
                self.config = CaptureConfig { size, fps };
                self.frame_index = 0;
                self.frames = Frame::generate_frame_set(&self.config, PALETTE_LEN, timestamp);
            },
        }
    }

    /// One frame interval: while capturing, the next frame (each palette
    /// colour shown for 60 frames, in turn) stamped with `timestamp`, and
    /// the counter advances; otherwise nothing happens.
    pub fn tick(&mut self, timestamp: u64) -> (r: Option<Frame>)
        requires
            old(self).wf(),
        ensures
            final(self).wf(),
            final(self).is_capturing() == old(self).is_capturing(),
            final(self).config_size() == old(self).config_size(),
            final(self).config_fps() == old(self).config_fps(),
            match r {
                None => !old(self).is_capturing() && final(self).frame_counter() == old(
                    self,
                ).frame_counter(),
                Some(f) => {
                    &&& old(self).is_capturing()
                    &&& final(self).frame_counter() == (old(self).frame_counter() + 1)
                        % 0x1_0000_0000_0000_0000
                    &&& (f.width, f.height) == mock_frame_size(old(self).config_size())
                    &&& f.data@.len() == f.width * f.height * 4
                    &&& is_solid(
                        f.data@,
                        palette((old(self).frame_counter() / COLOR_DWELL_FRAMES) as int % 10),
                    )
                    &&& f.timestamp == timestamp
                },
            },
    {
        if !self.capturing {
            return None;
        }
        let color_idx = ((self.frame_index / COLOR_DWELL_FRAMES) % 10) as usize;
        let idx = color_idx % self.frames.len();
        let frame = restamp(&self.frames[idx], timestamp);
        self.frame_index = self.frame_index.wrapping_add(1);
        Some(frame)
    }
}

/// The capture size after an `UpdateConfig { width, height, fps }` of the
/// GDI capture: a zero width or height means the source size.
pub fn capture_size_from(width: u32, height: u32) -> (r: CaptureSize)
    ensures
        r == if width == 0 || height == 0 {
            CaptureSize::UseSourceSize
        } else {
            CaptureSize::Custom { width, height }
        },
{
    if width == 0 || height == 0 {
        CaptureSize::UseSourceSize
    } else {
        CaptureSize::Custom { width, height }
    }
}

/// The configuration the GDI capture keeps after an update: the size as
/// above and at least one frame per second.
pub fn gdi_config_from(width: u32, height: u32, fps: u32) -> (r: CaptureConfig)
    ensures
        r.size == if width == 0 || height == 0 {
            CaptureSize::UseSourceSize
        } else {
            CaptureSize::Custom { width, height }
        },
        r.fps == if fps == 0 {
            1
        } else {
            fps
        },
{
    CaptureConfig {
        size: capture_size_from(width, height),
        fps: if fps == 0 {
            1
        } else {
            fps
        },
    }
}

/// The destination size of a GDI capture of a `src_width × src_height`
/// window.
pub fn destination_size(config: &CaptureConfig, src_width: i32, src_height: i32) -> (r: (i32, i32))
    ensures
        r == match config.size {
            CaptureSize::UseSourceSize => (src_width, src_height),
            CaptureSize::Custom { width, height } => (width as i32, height as i32),
        },
{
    match &config.size {
        CaptureSize::UseSourceSize => (src_width, src_height),
        CaptureSize::Custom { width, height } => (*width as i32, *height as i32),
    }
}

/// Bytes per row of a 32-bit DIB `width` pixels wide (rows padded to 4
/// bytes).
pub fn dib_stride(width: i32) -> (r: i32)
    requires
        0 <= width <= 0x3FF_FFFF,
    ensures
        r == (width * 32 + 31) / 32 * 4,
{
    (width * 32 + 31) / 32 * 4
}

/// Why a GDI capture cannot be made.
#[derive(Debug, Clone, Copy, PartialEq, Eq, Structural)]
pub enum GdiCaptureError {
    /// The window's client area is empty.
    InvalidSourceSize { width: i32, height: i32 },
}

/// How a GDI capture of a window is laid out: the bitmap size, and whether
/// the window has to be captured at its own size first and then stretched.
#[derive(Debug, Clone, Copy, PartialEq, Eq, Structural)]
pub struct GdiFrameLayout {
    pub dst_width: i32,
    pub dst_height: i32,
    pub needs_scaling: bool,
}

/// Lays out the capture of a window whose client area is `src_width ×
/// src_height`; an empty client area is refused.
pub fn gdi_frame_layout(config: &CaptureConfig, src_width: i32, src_height: i32) -> (r: Result<
    GdiFrameLayout,
    GdiCaptureError,
>)
    ensures
        match r {
            Err(e) => {
                &&& src_width <= 0 || src_height <= 0
                &&& e == GdiCaptureError::InvalidSourceSize { width: src_width, height: src_height }
            },
            Ok(l) => {
                let dst = match config.size {
                    CaptureSize::UseSourceSize => (src_width, src_height),
                    CaptureSize::Custom { width, height } => (width as i32, height as i32),
                };
                &&& src_width > 0 && src_height > 0
                &&& (l.dst_width, l.dst_height) == dst
                &&& l.needs_scaling == (dst.0 != src_width || dst.1 != src_height)
            },
        },
{
    if src_width <= 0 || src_height <= 0 {
        return Err(GdiCaptureError::InvalidSourceSize { width: src_width, height: src_height });
    }
    let (dst_width, dst_height) = destination_size(config, src_width, src_height);
    Ok(GdiFrameLayout {
        dst_width,
        dst_height,
        needs_scaling: dst_width != src_width || dst_height != src_height,
    })
}

/// Bytes of a top-down 32-bit DIB of `width × height` pixels.
pub fn dib_buffer_len(width: i32, height: i32) -> (r: usize)
    requires
        0 <= width <= 0x3FF_FFFF,
        0 <= height,
        (width * 32 + 31) / 32 * 4 * height <= i32::MAX,
    ensures
        r == (width * 32 + 31) / 32 * 4 * height,
{
    let stride = dib_stride(width);
    proof {
        assert(stride >= 0);
    }
    (stride * height) as usize
}

/// `out` is `bgrx` with every whole pixel turned from B,G,R,X into
/// R,G,B,255; trailing bytes of an incomplete pixel are kept.
pub open spec fn is_rgba_of_bgrx(out: Seq<u8>, bgrx: Seq<u8>) -> bool {
    &&& out.len() == bgrx.len()
    &&& forall|p: int|
        0 <= p < bgrx.len() / 4 ==> #[trigger] out[4 * p] == bgrx[4 * p + 2] && out[4 * p + 1]
            == bgrx[4 * p + 1] && out[4 * p + 2] == bgrx[4 * p] && out[4 * p + 3] == 255
    &&& forall|k: int| 4 * (bgrx.len() / 4) <= k < bgrx.len() ==> #[trigger] out[k] == bgrx[k]
}

/// Converts GDI's BGRX pixels to RGBA in place.
pub fn bgrx_to_rgba(data: &mut Vec<u8>)
    ensures
        is_rgba_of_bgrx(final(data)@, old(data)@),
{
    let n = data.len();
    let pixels = n / 4;
    let mut p: usize = 0;
    while p < pixels
        invariant
            n == old(data)@.len(),
            data@.len() == n,
            pixels == n / 4,
            0 <= p <= pixels,
            forall|q: int|
                0 <= q < p ==> #[trigger] data@[4 * q] == old(data)@[4 * q + 2] && data@[4 * q + 1]
                    == old(data)@[4 * q + 1] && data@[4 * q + 2] == old(data)@[4 * q] && data@[4 * q
                    + 3] == 255,
            forall|k: int| 4 * p <= k < n ==> #[trigger] data@[k] == old(data)@[k],
        decreases pixels - p,
    {
        let base = 4 * p;
        let b = data[base];
        let r = data[base + 2];
        let ghost prev = data@;
        data.set(base, r);
        data.set(base + 2, b);
        data.set(base + 3, 255u8);
        assert forall|q: int| 0 <= q < p + 1 implies #[trigger] data@[4 * q] == old(data)@[4 * q
            + 2] && data@[4 * q + 1] == old(data)@[4 * q + 1] && data@[4 * q + 2] == old(data)@[4
            * q] && data@[4 * q + 3] == 255 by {
            if q < p {
                assert(data@[4 * q] == prev[4 * q]);
                assert(data@[4 * q + 1] == prev[4 * q + 1]);
                assert(data@[4 * q + 2] == prev[4 * q + 2]);
                assert(data@[4 * q + 3] == prev[4 * q + 3]);
            } else {
                assert(prev[4 * q + 1] == old(data)@[4 * q + 1]);
            }
        }
        p += 1;
    }
}

/// The decisions of the GDI capture service: whether it captures, which
/// window, and with which configuration.
pub struct GdiCaptureState {
    capturing: bool,
    target: Option<u64>,
    config: CaptureConfig,
}

impl GdiCaptureState {
    pub closed spec fn is_capturing(&self) -> bool {
        self.capturing
    }

    pub closed spec fn target(&self) -> Option<u64> {
        self.target
    }

    pub closed spec fn config_size(&self) -> CaptureSize {
        self.config.size
    }

    pub closed spec fn config_fps(&self) -> u32 {
        self.config.fps
    }

    /// Not capturing, no window, the default configuration.
    pub fn new() -> (r: Self)
        ensures
            !r.is_capturing(),
            r.target() is None,
            r.config_size() == CaptureSize::UseSourceSize,
            r.config_fps() == 45,
    {
        GdiCaptureState { capturing: false, target: None, config: CaptureConfig::default() }
    }

    /// Starts capturing the window `hwnd`.
    pub fn start(&mut self, hwnd: u64)
        ensures
            final(self).is_capturing(),
            final(self).target() == Some(hwnd),
            final(self).config_size() == old(self).config_size(),
            final(self).config_fps() == old(self).config_fps(),
    {
        self.capturing = true;
        self.target = Some(hwnd);
    }

    /// Stops capturing; the window is remembered.
    pub fn stop(&mut self)
        ensures
            !final(self).is_capturing(),
            final(self).target() == old(self).target(),
            final(self).config_size() == old(self).config_size(),
            final(self).config_fps() == old(self).config_fps(),
    {
        self.capturing = false;
    }

    /// Takes over a new size and rate: a zero width or height means the
    /// source size, and the rate is at least one frame per second.
    pub fn update_config(&mut self, width: u32, height: u32, fps: u32)
        ensures
            final(self).is_capturing() == old(self).is_capturing(),
            final(self).target() == old(self).target(),
            final(self).config_size() == if width == 0 || height == 0 {
                CaptureSize::UseSourceSize
            } else {
                CaptureSize::Custom { width, height }
            },
            final(self).config_fps() == if fps == 0 {
                1
            } else {
                fps
            },
    {
        self.config = gdi_config_from(width, height, fps);
    }

    /// Interval between two captures in milliseconds: `1000 / max(fps, 1)`.
    pub fn tick_interval_ms(&self) -> (r: u64)
        ensures
            r == 1000int / (if self.config_fps() == 0 {
                1int
            } else {
                self.config_fps() as int
            }),
    {
        let fps = if self.config.fps == 0 {
            1
        } else {
            self.config.fps
        };
        1000 / (fps as u64)
    }

    /// The window to capture at this tick: the target while capturing.
    pub fn capture_target(&self) -> (r: Option<u64>)
        ensures
            r == if self.is_capturing() {
                self.target()
            } else {
                None
            },
    {
        if self.capturing {
            self.target
        } else {
            None
        }
    }

    /// The size to capture a `src_width × src_height` window at.
    pub fn destination_size(&self, src_width: i32, src_height: i32) -> (r: (i32, i32))
        ensures
            r == match self.config_size() {
                CaptureSize::UseSourceSize => (src_width, src_height),
                CaptureSize::Custom { width, height } => (width as i32, height as i32),
            },
    {
        destination_size(&self.config, src_width, src_height)
    }
}

} // verus!
