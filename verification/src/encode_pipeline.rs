//! The bookkeeping of the hardware (Media Foundation) encode worker: frame
//! timing, the queue that pairs encoder outputs with the inputs they came
//! from, and the failure counters that end the event loop.
//!
//! The worker waits for encoder events; on each it calls one method here and
//! performs what the result asks for. Nothing here waits or touches the
//! encoder.
use vstd::prelude::*;
use std::collections::VecDeque;
use crate::media_foundation::{even_dimension, frame_duration_ns, frame_duration_ns_spec};

verus! {

/// What the worker remembers of a submitted input until its output arrives.
#[derive(Debug, Clone, Copy, PartialEq, Eq, Structural)]
pub struct InputFrameMeta {
    /// Duration of the frame in nanoseconds.
    pub duration_ns: u64,
    /// Encode width (even).
    pub width: u32,
    /// Encode height (even).
    pub height: u32,
    pub frame_id: u64,
}

/// Sample time and duration (100 ns units) to set on an input sample.
#[derive(Debug, Clone, Copy, PartialEq, Eq, Structural)]
pub struct SampleTiming {
    pub sample_time_hns: i64,
    pub sample_duration_hns: i64,
}

/// Event-loop failures after which the worker gives up.
pub const MAX_EVENT_FAILURES: u32 = 10;

/// `(d as i64) / 100` as Rust computes it: the cast wraps a value above
/// `i64::MAX` to a negative one, and the division truncates toward zero.
pub open spec fn hns_of(d: u64) -> int {
    if d <= i64::MAX {
        d as int / 100
    } else {
        -((0x1_0000_0000_0000_0000 - d) / 100)
    }
}

/// Converts a frame duration in nanoseconds into the 100 ns units of a
/// sample duration, the way the worker's `as i64` cast does.
pub fn duration_to_hns(d: u64) -> (r: i64)
    ensures
        r == hns_of(d),
{
    if d <= 0x7FFF_FFFF_FFFF_FFFF {
        (d / 100) as i64
    } else {
        let m: u64 = (u64::MAX - d) + 1;
        -((m / 100) as i64)
    }
}

/// The worker's state seen as plain values.
pub struct PipelineView {
    pub encode_failures: int,
    pub empty_samples: int,
    pub frame_timestamp: int,
    pub last_timestamp: Option<u64>,
    pub queue: Seq<InputFrameMeta>,
}

/// An input whose meta was queued: it is appended to the queue.
pub open spec fn queue_meta(v: PipelineView, m: InputFrameMeta) -> PipelineView {
    PipelineView { queue: v.queue.push(m), ..v }
}

/// A failed input: one more failure, and the newest queued meta (if any)
/// is dropped.
pub open spec fn fail_input(v: PipelineView) -> PipelineView {
    PipelineView {
        encode_failures: v.encode_failures + 1,
        queue: if v.queue.len() == 0 {
            v.queue
        } else {
            v.queue.drop_last()
        },
        ..v
    }
}

/// An encoded output arrived: it is paired with the oldest queued meta. An
/// output with no meta to pair with, or with no data, is counted as empty
/// and not sent.
pub open spec fn take_output(v: PipelineView, data_is_empty: bool) -> (
    Option<InputFrameMeta>,
    PipelineView,
) {
    if v.queue.len() == 0 {
        (None, PipelineView { empty_samples: v.empty_samples + 1, ..v })
    } else if data_is_empty {
        (
            None,
            PipelineView {
                empty_samples: v.empty_samples + 1,
                queue: v.queue.drop_first(),
                ..v
            },
        )
    } else {
        (Some(v.queue[0]), PipelineView { queue: v.queue.drop_first(), ..v })
    }
}

/// Queues the metas `ms` in order.
pub open spec fn queue_all(v: PipelineView, ms: Seq<InputFrameMeta>) -> PipelineView
    decreases ms.len(),
{
    if ms.len() == 0 {
        v
    } else {
        queue_all(queue_meta(v, ms[0]), ms.drop_first())
    }
}

/// Takes `n` outputs that carry data; returns the metas they were paired
/// with, in order.
pub open spec fn take_outputs(v: PipelineView, n: nat) -> (Seq<InputFrameMeta>, PipelineView)
    decreases n,
{
    if n == 0 {
        (Seq::empty(), v)
    } else {
        let (m, v1) = take_output(v, false);
        let (rest, v2) = take_outputs(v1, (n - 1) as nat);
        (
            match m {
                Some(x) => seq![x] + rest,
                None => rest,
            },
            v2,
        )
    }
}

/// A job as the worker sees it: (width, height, capture timestamp in 100 ns
/// units, frame id).
pub type JobInfo = (u32, u32, u64, u64);

/// The meta the worker queues for `job` when the previous job's timestamp
/// was `prev`: the duration from the two timestamps, the size rounded down
/// to even numbers, and the frame id.
pub open spec fn job_meta(prev: Option<u64>, job: JobInfo) -> InputFrameMeta {
    InputFrameMeta {
        duration_ns: frame_duration_ns_spec(prev, job.2) as u64,
        width: (job.0 - job.0 % 2) as u32,
        height: (job.1 - job.1 % 2) as u32,
        frame_id: job.3,
    }
}

/// A job is accepted: its timestamp is remembered and its meta queued.
pub open spec fn accept_job_spec(v: PipelineView, job: JobInfo) -> PipelineView {
    PipelineView {
        last_timestamp: Some(job.2),
        queue: v.queue.push(job_meta(v.last_timestamp, job)),
        ..v
    }
}

/// Accepts the jobs in order.
pub open spec fn accept_all(v: PipelineView, jobs: Seq<JobInfo>) -> PipelineView
    decreases jobs.len(),
{
    if jobs.len() == 0 {
        v
    } else {
        accept_all(accept_job_spec(v, jobs[0]), jobs.drop_first())
    }
}

/// The metas of the jobs, each timed against the one before it (the first
/// against `prev`).
pub open spec fn job_metas(prev: Option<u64>, jobs: Seq<JobInfo>) -> Seq<InputFrameMeta>
    decreases jobs.len(),
{
    if jobs.len() == 0 {
        Seq::empty()
    } else {
        seq![job_meta(prev, jobs[0])] + job_metas(Some(jobs[0].2), jobs.drop_first())
    }
}

/// The state of one encode worker.
pub struct EncodePipeline {
    encode_failures: u32,
    empty_samples: u32,
    frame_timestamp: i64,
    last_timestamp: Option<u64>,
    queue: VecDeque<InputFrameMeta>,
}

impl View for EncodePipeline {
    type V = PipelineView;

    closed spec fn view(&self) -> PipelineView {
        PipelineView {
            encode_failures: self.encode_failures as int,
            empty_samples: self.empty_samples as int,
            frame_timestamp: self.frame_timestamp as int,
            last_timestamp: self.last_timestamp,
            queue: self.queue@,
        }
    }
}

impl EncodePipeline {
    /// A worker that has submitted nothing.
    pub fn new() -> (r: Self)
        ensures
            r@.encode_failures == 0,
            r@.empty_samples == 0,
            r@.frame_timestamp == 0,
            r@.last_timestamp is None,
            r@.queue == Seq::<InputFrameMeta>::empty(),
    {
        EncodePipeline {
            encode_failures: 0,
            empty_samples: 0,
            frame_timestamp: 0,
            last_timestamp: None,
            queue: VecDeque::new(),
        }
    }

    /// Failures counted so far.
    pub fn encode_failures(&self) -> (r: u32)
        ensures
            r == self@.encode_failures,
    {
        self.encode_failures
    }

    /// Outputs that had no data or no input to pair with.
    pub fn empty_samples(&self) -> (r: u32)
        ensures
            r == self@.empty_samples,
    {
        self.empty_samples
    }

    /// The sample time the next input gets (100 ns units).
    pub fn frame_timestamp(&self) -> (r: i64)
        ensures
            r == self@.frame_timestamp,
    {
        self.frame_timestamp
    }

    /// Number of inputs waiting for their output.
    pub fn pending_outputs(&self) -> (r: usize)
        ensures
            r == self@.queue.len(),
    {
        self.queue.len()
    }

    /// The id of the input the next output belongs to, if any.
    pub fn expected_frame_id(&self) -> (r: Option<u64>)
        ensures
            r == if self@.queue.len() == 0 {
                None
            } else {
                Some(self@.queue[0].frame_id)
            },
    {
        if self.queue.len() == 0 {
            None
        } else {
            Some(self.queue[0].frame_id)
        }
    }

    /// Fetching an event failed. Returns whether the worker must stop: more
    /// than ten failures in all.
    pub fn event_failed(&mut self) -> (stop: bool)
        requires
            old(self)@.encode_failures < u32::MAX,
        ensures
            final(self)@ == (PipelineView {
                encode_failures: old(self)@.encode_failures + 1,
                ..old(self)@
            }),
            stop == (final(self)@.encode_failures > MAX_EVENT_FAILURES),
    {
        self.encode_failures = self.encode_failures + 1;
        self.encode_failures > MAX_EVENT_FAILURES
    }

    /// The duration of a captured frame from its timestamp (100 ns units)
    /// and the previous frame's; the timestamp is remembered for the next.
    pub fn next_frame_duration(&mut self, timestamp: u64) -> (r: u64)
        ensures
            r == frame_duration_ns_spec(old(self)@.last_timestamp, timestamp),
            final(self)@ == (PipelineView { last_timestamp: Some(timestamp), ..old(self)@ }),
    {
        let r = frame_duration_ns(self.last_timestamp, timestamp);
        self.last_timestamp = Some(timestamp);
        r
    }

    /// Queues the meta of an input about to be submitted and tells its
    /// sample time (the current frame timestamp) and sample duration.
    pub fn queue_input(&mut self, meta: InputFrameMeta) -> (r: SampleTiming)
        ensures
            final(self)@ == queue_meta(old(self)@, meta),
            r.sample_time_hns == old(self)@.frame_timestamp,
            r.sample_duration_hns == hns_of(meta.duration_ns),
    {
        self.queue.push_back(meta);
        SampleTiming {
            sample_time_hns: self.frame_timestamp,
            sample_duration_hns: duration_to_hns(meta.duration_ns),
        }
    }

    /// Accepts a job whose input is about to be submitted: its duration is
    /// taken from its timestamp and the previous job's, its size rounded down
    /// to even numbers, and its meta queued. Returns the sample time and
    /// duration to set on the input.
    pub fn accept_job(&mut self, width: u32, height: u32, timestamp: u64, frame_id: u64) -> (r:
        SampleTiming)
        ensures
            final(self)@ == accept_job_spec(old(self)@, (width, height, timestamp, frame_id)),
            r.sample_time_hns == old(self)@.frame_timestamp,
            r.sample_duration_hns == hns_of(
                job_meta(old(self)@.last_timestamp, (width, height, timestamp, frame_id)).duration_ns,
            ),
    {
        let duration_ns = self.next_frame_duration(timestamp);
        let meta = InputFrameMeta {
            duration_ns,
            width: even_dimension(width),
            height: even_dimension(height),
            frame_id,
        };
        self.queue_input(meta)
    }

    /// Preparing or submitting an input failed: one more failure, and the
    /// newest queued meta is dropped. The worker calls this for every failure
    /// on the input side, also for a failed media-type update or
    /// preprocessing step, which come before the input's own meta is
    /// queued: the meta dropped then is that of an earlier input, still
    /// waiting for its output (the worker means to drop its own, which does
    /// not exist yet).
    pub fn input_failed(&mut self)
        requires
            old(self)@.encode_failures < u32::MAX,
        ensures
            final(self)@ == fail_input(old(self)@),
    {
        self.encode_failures = self.encode_failures + 1;
        let _ = self.queue.pop_back();
    }

    /// The encoder accepted an input: the frame timestamp advances by its
    /// sample duration.
    pub fn input_submitted(&mut self, timing: SampleTiming)
        requires
            i64::MIN <= old(self)@.frame_timestamp + timing.sample_duration_hns <= i64::MAX,
        ensures
            final(self)@ == (PipelineView {
                frame_timestamp: old(self)@.frame_timestamp + timing.sample_duration_hns,
                ..old(self)@
            }),
    {
        self.frame_timestamp = self.frame_timestamp + timing.sample_duration_hns;
    }

    /// The encoder produced an output: the meta it belongs to when it is to
    /// be sent, `None` when it is counted as empty.
    pub fn output_ready(&mut self, data_is_empty: bool) -> (r: Option<InputFrameMeta>)
        requires
            old(self)@.empty_samples < u32::MAX,
        ensures
            (r, final(self)@) == take_output(old(self)@, data_is_empty),
    {
        match self.queue.pop_front() {
            None => {
                self.empty_samples = self.empty_samples + 1;
                None
            },
            Some(meta) => {
                if data_is_empty {
                    self.empty_samples = self.empty_samples + 1;
                    None
                } else {
                    Some(meta)
                }
            },
        }
    }

    /// Reading an output sample failed: one more failure, and the oldest
    /// meta is consumed.
    pub fn output_failed(&mut self)
        requires
            old(self)@.encode_failures < u32::MAX,
        ensures
            final(self)@ == (PipelineView {
                encode_failures: old(self)@.encode_failures + 1,
                queue: if old(self)@.queue.len() == 0 {
                    old(self)@.queue
                } else {
                    old(self)@.queue.drop_first()
                },
                ..old(self)@
            }),
    {
        self.encode_failures = self.encode_failures + 1;
        let _ = self.queue.pop_front();
    }

    /// The encoder reported output but handed out no sample.
    pub fn output_missing(&mut self)
        requires
            old(self)@.empty_samples < u32::MAX,
        ensures
            final(self)@ == (PipelineView { empty_samples: old(self)@.empty_samples + 1, ..old(self)@ }),
    {
        self.empty_samples = self.empty_samples + 1;
    }

    /// A failure that touches no queued meta: asking for output failed
    /// (other than "needs more input" or a stream change, which change
    /// nothing), or, in the worker variant that only counts a failed
    /// preprocessing step, that step failed. (The hardware worker itself
    /// handles a failed preprocessing step with `input_failed`.)
    pub fn record_failure(&mut self)
        requires
            old(self)@.encode_failures < u32::MAX,
        ensures
            final(self)@ == (PipelineView {
                encode_failures: old(self)@.encode_failures + 1,
                ..old(self)@
            }),
    {
        self.encode_failures = self.encode_failures + 1;
    }
}

/// Law: queueing metas appends them to the queue in order.
pub proof fn law_queue_all_appends(v: PipelineView, ms: Seq<InputFrameMeta>)
    ensures
        queue_all(v, ms).queue == v.queue + ms,
        queue_all(v, ms).encode_failures == v.encode_failures,
        queue_all(v, ms).empty_samples == v.empty_samples,
    decreases ms.len(),
{
    if ms.len() > 0 {
        law_queue_all_appends(queue_meta(v, ms[0]), ms.drop_first());
        assert(v.queue.push(ms[0]) + ms.drop_first() =~= v.queue + ms);
    }
}

/// Law: outputs with data are paired with the queued inputs oldest first;
/// taking as many outputs as there are queued inputs hands out exactly the
/// queue, in order, and counts nothing as empty.
pub proof fn law_outputs_follow_queue(v: PipelineView)
    ensures
        take_outputs(v, v.queue.len()).0 == v.queue,
        take_outputs(v, v.queue.len()).1.queue == Seq::<InputFrameMeta>::empty(),
        take_outputs(v, v.queue.len()).1.empty_samples == v.empty_samples,
    decreases v.queue.len(),
{
    if v.queue.len() > 0 {
        let v1 = take_output(v, false).1;
        law_outputs_follow_queue(v1);
        assert(seq![v.queue[0]] + v1.queue =~= v.queue);
    }
}

/// Law: inputs queued one after another come out of the encoder side in the
/// same order, after those already waiting.
pub proof fn law_outputs_in_input_order(v: PipelineView, ms: Seq<InputFrameMeta>)
    ensures
        take_outputs(queue_all(v, ms), v.queue.len() + ms.len()).0 == v.queue + ms,
{
    law_queue_all_appends(v, ms);
    law_outputs_follow_queue(queue_all(v, ms));
}

/// Law: a failed input undoes its own queueing.
pub proof fn law_failed_input_restores_queue(v: PipelineView, m: InputFrameMeta)
    ensures
        fail_input(queue_meta(v, m)).queue == v.queue,
        fail_input(queue_meta(v, m)).encode_failures == v.encode_failures + 1,
{
    assert(v.queue.push(m).drop_last() =~= v.queue);
}

proof fn lemma_accept_all_queue(v: PipelineView, jobs: Seq<JobInfo>)
    ensures
        accept_all(v, jobs).queue == v.queue + job_metas(v.last_timestamp, jobs),
        job_metas(v.last_timestamp, jobs).len() == jobs.len(),
    decreases jobs.len(),
{
    if jobs.len() > 0 {
        let v1 = accept_job_spec(v, jobs[0]);
        lemma_accept_all_queue(v1, jobs.drop_first());
        assert(v1.queue + job_metas(v1.last_timestamp, jobs.drop_first()) =~= v.queue + job_metas(
            v.last_timestamp,
            jobs,
        ));
    }
}

/// Law: the worker's results follow its jobs. When jobs are accepted one
/// after another and the encoder hands out one output per input, in order,
/// the outputs are paired, after the inputs already waiting, with the jobs'
/// metas in the jobs' order: the k-th carries the k-th job's frame id, its
/// size rounded down to even numbers, and a duration of 16 ms for a first
/// job or else the gap to the job before it (at least one 100 ns unit).
pub proof fn law_results_follow_jobs(v: PipelineView, jobs: Seq<JobInfo>)
    ensures
        take_outputs(accept_all(v, jobs), v.queue.len() + jobs.len()).0 == v.queue + job_metas(
            v.last_timestamp,
            jobs,
        ),
{
    lemma_accept_all_queue(v, jobs);
    law_outputs_follow_queue(accept_all(v, jobs));
}

} // verus!
