use desktop_services::audio_stream::{AudioReport, AudioStreamState};
use desktop_services::capture::GdiCaptureState;
use desktop_services::core_types::CaptureSize;
use desktop_services::encode_pipeline::{
    duration_to_hns, EncodePipeline, InputFrameMeta, SampleTiming,
};
use desktop_services::vpx::VpxWorker;

fn meta(frame_id: u64, duration_ns: u64) -> InputFrameMeta {
    InputFrameMeta { duration_ns, width: 1920, height: 1080, frame_id }
}

#[test]
fn outputs_are_paired_with_inputs_in_order() {
    let mut p = EncodePipeline::new();
    let t1 = p.queue_input(meta(1, 16_000_000));
    assert_eq!(t1, SampleTiming { sample_time_hns: 0, sample_duration_hns: 160_000 });
    p.input_submitted(t1);
    let t2 = p.queue_input(meta(2, 16_666_600));
    assert_eq!(t2.sample_time_hns, 160_000);
    assert_eq!(t2.sample_duration_hns, 166_666);
    p.input_submitted(t2);
    assert_eq!(p.frame_timestamp(), 326_666);
    assert_eq!(p.pending_outputs(), 2);
    assert_eq!(p.expected_frame_id(), Some(1));
    assert_eq!(p.output_ready(false), Some(meta(1, 16_000_000)));
    assert_eq!(p.output_ready(false), Some(meta(2, 16_666_600)));
    assert_eq!(p.output_ready(false), None);
    assert_eq!(p.empty_samples(), 1);
    assert_eq!(p.expected_frame_id(), None);
}

#[test]
fn empty_outputs_consume_their_input() {
    let mut p = EncodePipeline::new();
    p.queue_input(meta(1, 100));
    p.queue_input(meta(2, 100));
    assert_eq!(p.output_ready(true), None);
    assert_eq!(p.empty_samples(), 1);
    assert_eq!(p.output_ready(false), Some(meta(2, 100)));
    p.output_missing();
    assert_eq!(p.empty_samples(), 2);
}

#[test]
fn failed_inputs_drop_the_newest_meta() {
    let mut p = EncodePipeline::new();
    p.queue_input(meta(1, 100));
    p.queue_input(meta(2, 100));
    p.input_failed();
    assert_eq!(p.encode_failures(), 1);
    assert_eq!(p.pending_outputs(), 1);
    assert_eq!(p.expected_frame_id(), Some(1));
    p.output_failed();
    assert_eq!(p.encode_failures(), 2);
    assert_eq!(p.pending_outputs(), 0);
    p.input_failed();
    p.record_failure();
    assert_eq!(p.encode_failures(), 4);
}

#[test]
fn event_failures_stop_the_worker_after_ten() {
    let mut p = EncodePipeline::new();
    for _ in 0..10 {
        assert!(!p.event_failed());
    }
    assert!(p.event_failed());
}

#[test]
fn frame_durations_come_from_timestamps() {
    let mut p = EncodePipeline::new();
    assert_eq!(p.next_frame_duration(1_000), 16_000_000);
    assert_eq!(p.next_frame_duration(167_666), 16_666_600);
    assert_eq!(p.next_frame_duration(167_666), 100);
}

#[test]
fn sample_durations_use_the_wrapping_cast() {
    assert_eq!(duration_to_hns(16_000_000), 160_000);
    assert_eq!(duration_to_hns(199), 1);
    assert_eq!(duration_to_hns(u64::MAX), ((u64::MAX as i64) / 100));
    assert_eq!(duration_to_hns(1u64 << 63), ((1u64 << 63) as i64) / 100);
}

#[test]
fn vpx_worker_recreates_the_encoder_on_resize() {
    let mut w = VpxWorker::new();
    assert!(w.prepare_encoder(640, 480));
    w.encoder_created();
    assert!(!w.prepare_encoder(640, 480));
    for _ in 0..3 {
        assert!(w.next_frame_forces_keyframe());
    }
    assert!(!w.next_frame_forces_keyframe());
    assert!(w.prepare_encoder(1280, 720));
    w.encoder_created();
    assert!(w.next_frame_forces_keyframe());
}

#[test]
fn vpx_worker_keeps_the_new_size_when_creation_fails() {
    let mut w = VpxWorker::new();
    assert!(w.prepare_encoder(640, 480));
    // Creation failed: no encoder, so the next frame asks again.
    assert!(w.prepare_encoder(640, 480));
    w.encoder_created();
    // A failed resize still takes over the new size.
    assert!(w.prepare_encoder(1280, 720));
    assert!(!w.prepare_encoder(1280, 720));
}

#[test]
fn vpx_presentation_time_saturates() {
    let mut w = VpxWorker::new();
    assert_eq!(w.pts(), 0);
    w.frame_encoded(33);
    w.frame_encoded(16);
    assert_eq!(w.pts(), 49);
    w.frame_encoded(i64::MAX);
    assert_eq!(w.pts(), i64::MAX);
}

#[test]
fn gdi_capture_state() {
    let mut s = GdiCaptureState::new();
    assert_eq!(s.capture_target(), None);
    assert_eq!(s.tick_interval_ms(), 22);
    s.start(42);
    assert_eq!(s.capture_target(), Some(42));
    s.update_config(320, 0, 0);
    assert_eq!(s.tick_interval_ms(), 1000);
    assert_eq!(s.destination_size(800, 600), (800, 600));
    s.update_config(320, 240, 30);
    assert_eq!(s.destination_size(800, 600), (320, 240));
    assert_eq!(s.tick_interval_ms(), 33);
    s.stop();
    assert_eq!(s.capture_target(), None);
    let _ = CaptureSize::UseSourceSize;
}

#[test]
fn audio_stream_writes_only_to_a_track() {
    let mut s = AudioStreamState::new();
    assert!(!s.should_write());
    s.track_switched();
    assert!(s.should_write());
    assert_eq!(s.sample_written(true, false), None);
    assert_eq!(s.sample_written(true, true), Some(AudioReport::AllSilent { frames: 2 }));
    assert_eq!(s.frame_count(), 0);
    assert_eq!(s.sample_written(false, false), None);
    assert_eq!(s.sample_written(true, true), Some(AudioReport::Summary { frames: 2, silent: 1 }));
}

#[test]
fn accepted_jobs_come_out_in_order_with_their_timing() {
    let mut p = EncodePipeline::new();
    let t1 = p.accept_job(1919, 1081, 1_000, 7);
    assert_eq!(t1, SampleTiming { sample_time_hns: 0, sample_duration_hns: 160_000 });
    p.input_submitted(t1);
    let t2 = p.accept_job(1919, 1081, 167_666, 8);
    assert_eq!(t2, SampleTiming { sample_time_hns: 160_000, sample_duration_hns: 166_666 });
    p.input_submitted(t2);
    assert_eq!(
        p.output_ready(false),
        Some(InputFrameMeta { duration_ns: 16_000_000, width: 1918, height: 1080, frame_id: 7 })
    );
    assert_eq!(
        p.output_ready(false),
        Some(InputFrameMeta { duration_ns: 16_666_600, width: 1918, height: 1080, frame_id: 8 })
    );
}
