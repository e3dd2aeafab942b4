//! The decisions of the audio stream service: encoded audio is written only
//! to a negotiated track, and every few seconds the frame and silence counts
//! are reported and restarted.
use vstd::prelude::*;

verus! {

/// What the periodic report says.
#[derive(Debug, Clone, Copy, PartialEq, Eq, Structural)]
pub enum AudioReport {
    /// Every frame of the period was silent.
    AllSilent { frames: u64 },
    /// Frames sent and how many of them were silent.
    Summary { frames: u64, silent: u64 },
}

/// Whether a track is set, and the frames (and silent frames) written since
/// the last report.
pub struct AudioStreamState {
    has_track: bool,
    frame_count: u64,
    silent_count: u64,
}

/// The state seen as (track set, frames, silent frames).
impl View for AudioStreamState {
    type V = (bool, nat, nat);

    closed spec fn view(&self) -> (bool, nat, nat) {
        (self.has_track, self.frame_count as nat, self.silent_count as nat)
    }
}

/// One written frame: the counts grow; when a report is due it is made from
/// them and they start again from zero.
pub open spec fn after_write(s: (bool, nat, nat), is_silent: bool, report_due: bool) -> (
    Option<AudioReport>,
    (bool, nat, nat),
) {
    let frames = s.1 + 1;
    let silent = if is_silent {
        s.2 + 1
    } else {
        s.2
    };
    if report_due {
        (
            Some(
                if silent == frames && frames > 0 {
                    AudioReport::AllSilent { frames: frames as u64 }
                } else {
                    AudioReport::Summary { frames: frames as u64, silent: silent as u64 }
                },
            ),
            (s.0, 0, 0),
        )
    } else {
        (None, (s.0, frames, silent))
    }
}

impl AudioStreamState {
    /// Silent frames are among the frames counted.
    pub closed spec fn wf(&self) -> bool {
        self.silent_count <= self.frame_count
    }

    /// No track yet, nothing counted.
    pub fn new() -> (r: Self)
        ensures
            r.wf(),
            r@ == (false, 0nat, 0nat),
    {
        AudioStreamState { has_track: false, frame_count: 0, silent_count: 0 }
    }

    /// A new track was negotiated; results go to it from now on.
    pub fn track_switched(&mut self)
        requires
            old(self).wf(),
        ensures
            final(self).wf(),
            final(self)@ == (true, old(self)@.1, old(self)@.2),
    {
        self.has_track = true;
    }

    /// Whether an encoded result is to be written (a track is set).
    pub fn should_write(&self) -> (r: bool)
        ensures
            r == self@.0,
    {
        self.has_track
    }

    /// Frames written since the last report.
    pub fn frame_count(&self) -> (r: u64)
        ensures
            r == self@.1,
    {
        self.frame_count
    }

    /// A result was written to the track; `report_due` tells whether the
    /// report period (five seconds) has passed.
    pub fn sample_written(&mut self, is_silent: bool, report_due: bool) -> (r: Option<AudioReport>)
        requires
            old(self).wf(),
            old(self)@.1 < u64::MAX,
        ensures
            final(self).wf(),
            (r, final(self)@) == after_write(old(self)@, is_silent, report_due),
    {
        let frames = self.frame_count + 1;
        let silent = if is_silent {
            self.silent_count + 1
        } else {
            self.silent_count
        };
        if report_due {
            self.frame_count = 0;
            self.silent_count = 0;
            if silent == frames && frames > 0 {
                Some(AudioReport::AllSilent { frames })
            } else {
                Some(AudioReport::Summary { frames, silent })
            }
        } else {
            self.frame_count = frames;
            self.silent_count = silent;
            None
        }
    }
}

/// Law: a report counts every frame written since the previous one, and the
/// counting starts again after it.
pub proof fn law_report_restarts_counts(s: (bool, nat, nat), is_silent: bool)
    requires
        s.2 <= s.1,
        s.1 < u64::MAX,
    ensures
        after_write(s, is_silent, true).1 == (s.0, 0nat, 0nat),
        after_write(s, is_silent, true).0 matches Some(rep) && match rep {
            AudioReport::AllSilent { frames } => frames == s.1 + 1,
            AudioReport::Summary { frames, silent } => frames == s.1 + 1 && silent <= frames,
        },
{
}

} // verus!
