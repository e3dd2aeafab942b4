use desktop_services::core_types::VideoCodec;
use desktop_services::h264_mf::plan_rgba_to_nv12;
use desktop_services::media_foundation::{
    av1_encode_dimension, choose_output_type, even_dimension, frame_duration_ns, frame_rate_60fps,
    pack_frame_size, unpack_frame_size, DrainStep, H264Backend, MediaFoundationAV1EncoderFactory, MediaFoundationH264EncoderFactory,
    OutputDrain, OutputPoll,
};
use desktop_services::openh264::{openh264_bitrate, openh264_threads, OpenH264EncoderFactory};
use desktop_services::vpx::{vpx_bitrate_kbps, KeyframeForcer};
use desktop_services::windows_h264;
use desktop_services::yuv_layout::{plan_rgba_to_i420, I420Error};

#[test]
fn frame_size_packs_width_above_height() {
    let packed = pack_frame_size(1920, 1080);
    assert_eq!(packed, 8_246_337_209_400);
    assert_eq!(unpack_frame_size(packed), (1920, 1080));
    assert_eq!(unpack_frame_size(pack_frame_size(u32::MAX, 7)), (u32::MAX, 7));
}

#[test]
fn frame_rate_attribute_is_sixty_over_one() {
    assert_eq!(frame_rate_60fps(), (60u64 << 32) | 1);
}

#[test]
fn encode_dimensions_are_even() {
    assert_eq!(even_dimension(1919), 1918);
    assert_eq!(even_dimension(1080), 1080);
    assert_eq!(even_dimension(1), 0);
}

#[test]
fn frame_duration_from_timestamps() {
    assert_eq!(frame_duration_ns(None, 5), 16_000_000);
    assert_eq!(frame_duration_ns(Some(100), 266_766), 26_666_600);
    // A timestamp that does not advance still lasts one unit.
    assert_eq!(frame_duration_ns(Some(10), 5), 100);
    assert_eq!(frame_duration_ns(Some(10), 10), 100);
    // A huge gap saturates.
    assert_eq!(frame_duration_ns(Some(0), u64::MAX), u64::MAX);
}

#[test]
fn h264_factory_picks_its_backend() {
    let mf = MediaFoundationH264EncoderFactory::new(true);
    assert!(mf.use_media_foundation());
    assert_eq!(mf.backend(), H264Backend::MediaFoundation);
    assert_eq!(mf.codec(), VideoCodec::H264);
    let fallback = MediaFoundationH264EncoderFactory::new(false);
    assert!(!fallback.use_media_foundation());
    assert_eq!(fallback.backend(), H264Backend::OpenH264);
    assert_eq!(MediaFoundationAV1EncoderFactory::new().codec(), VideoCodec::AV1);
    let sync = windows_h264::MediaFoundationH264EncoderFactory::new();
    assert!(sync.use_media_foundation());
    assert_eq!(sync.codec(), VideoCodec::H264);
    assert_eq!(OpenH264EncoderFactory::new().codec(), VideoCodec::H264);
}

#[test]
fn openh264_settings() {
    assert_eq!(openh264_bitrate(1920, 1080), 4_147_200);
    assert_eq!(openh264_threads(8), 8);
    assert_eq!(openh264_threads(16), 16);
    assert_eq!(openh264_threads(64), 16);
}

#[test]
fn vpx_bitrate_has_a_floor() {
    assert_eq!(vpx_bitrate_kbps(1920, 1080), 4147);
    assert_eq!(vpx_bitrate_kbps(100, 100), 300);
    assert_eq!(vpx_bitrate_kbps(0, 0), 300);
}

#[test]
fn three_keyframes_after_a_restart() {
    let mut forcer = KeyframeForcer::new();
    assert!(forcer.next_frame_forces_keyframe());
    assert!(forcer.next_frame_forces_keyframe());
    assert!(forcer.next_frame_forces_keyframe());
    assert!(!forcer.next_frame_forces_keyframe());
    assert!(!forcer.next_frame_forces_keyframe());
    forcer.reset();
    assert!(forcer.next_frame_forces_keyframe());
}

#[test]
fn i420_plan_of_an_odd_picture_drops_left_column_and_top_row() {
    match plan_rgba_to_i420(36, 3, 3) {
        Ok(plan) => {
            assert_eq!((plan.encode_width, plan.encode_height), (2, 2));
            assert_eq!(plan.y_sources, vec![16usize, 20, 28, 32]);
            assert_eq!(plan.uv_sources, vec![[16usize, 20, 28, 32]]);
        }
        Err(e) => panic!("unexpected error {:?}", e),
    }
}

#[test]
fn i420_plan_of_an_even_picture() {
    match plan_rgba_to_i420(4 * 4 * 2, 4, 2) {
        Ok(plan) => {
            assert_eq!((plan.encode_width, plan.encode_height), (4, 2));
            assert_eq!(plan.y_sources, vec![0usize, 4, 8, 12, 16, 20, 24, 28]);
            assert_eq!(plan.uv_sources, vec![[0usize, 4, 16, 20], [8, 12, 24, 28]]);
        }
        Err(e) => panic!("unexpected error {:?}", e),
    }
}

#[test]
fn i420_plan_refuses_a_short_buffer() {
    match plan_rgba_to_i420(10, 2, 2) {
        Ok(_) => panic!("a 10-byte buffer cannot hold 2x2 RGBA"),
        Err(e) => assert_eq!(e, I420Error::SourceTooSmall { expected: 16, actual: 10 }),
    }
}

#[test]
fn nv12_plan_scales_by_nearest_neighbour() {
    let plan = plan_rgba_to_nv12(64, 4, 4, 2, 2);
    assert_eq!(plan.buffer_len, 6);
    assert_eq!(plan.y_sources, vec![Some(0usize), Some(8), Some(32), Some(40)]);
    assert_eq!(plan.uv_blocks.len(), 1);
    assert_eq!(plan.uv_blocks[0].sources, vec![0usize, 8, 32, 40]);
    assert_eq!(plan.uv_blocks[0].dest, Some(4));
}

#[test]
fn nv12_plan_skips_pixels_outside_a_short_buffer() {
    let plan = plan_rgba_to_nv12(10, 4, 4, 2, 2);
    assert_eq!(plan.y_sources, vec![Some(0usize), None, None, None]);
    assert_eq!(plan.uv_blocks[0].sources, vec![0usize]);
    assert_eq!(plan.uv_blocks[0].dest, Some(4));

    let empty = plan_rgba_to_nv12(0, 4, 4, 2, 2);
    assert_eq!(empty.uv_blocks[0].sources, Vec::<usize>::new());
    assert_eq!(empty.uv_blocks[0].dest, None);
}

#[test]
fn nv12_plan_of_odd_encode_width() {
    // 3x2: the second chroma pair would start at byte 6 + 2 = 8, but the
    // buffer holds 6 + 3 bytes, so it has no place.
    let plan = plan_rgba_to_nv12(24, 3, 2, 3, 2);
    assert_eq!(plan.buffer_len, 9);
    assert_eq!(
        plan.y_sources,
        vec![Some(0usize), Some(4), Some(8), Some(12), Some(16), Some(20)]
    );
    assert_eq!(plan.uv_blocks.len(), 2);
    assert_eq!(plan.uv_blocks[0].sources, vec![0usize, 4, 12, 16]);
    assert_eq!(plan.uv_blocks[0].dest, Some(6));
    assert_eq!(plan.uv_blocks[1].sources, vec![8usize, 8, 20, 20]);
    assert_eq!(plan.uv_blocks[1].dest, None);
}

#[test]
fn nv12_plan_of_even_size_places_every_pair() {
    let plan = plan_rgba_to_nv12(32, 4, 2, 4, 2);
    assert_eq!(plan.buffer_len, 12);
    assert_eq!(plan.uv_blocks.len(), 2);
    assert_eq!(plan.uv_blocks[0].dest, Some(8));
    assert_eq!(plan.uv_blocks[1].sources, vec![8usize, 12, 24, 28]);
    assert_eq!(plan.uv_blocks[1].dest, Some(10));
}

#[test]
fn av1_dimensions_are_multiples_of_sixteen() {
    assert_eq!(av1_encode_dimension(1919), 1904);
    assert_eq!(av1_encode_dimension(1080), 1072);
    assert_eq!(av1_encode_dimension(1920), 1920);
    assert_eq!(av1_encode_dimension(10), 16);
    assert_eq!(av1_encode_dimension(0), 16);
}

#[test]
fn test_factory_creation() {
    // On a system where Media Foundation's H.264 encoder is available.
    let factory = MediaFoundationH264EncoderFactory::new(true);
    assert!(factory.use_media_foundation(), "Media Foundation encoder should be available");
    assert_eq!(factory.codec(), VideoCodec::H264);
}

#[test]
fn output_type_is_the_first_video_type_of_the_subtype() {
    let h264 = 0x3436_3248_0000_0010_8000_00AA_0038_9B71u128;
    let nv12 = 0x3231_564E_0000_0010_8000_00AA_0038_9B71u128;
    assert_eq!(choose_output_type(&[(false, h264), (true, nv12), (true, h264), (true, h264)], h264), Some(2));
    assert_eq!(choose_output_type(&[(false, h264), (true, nv12)], h264), None);
    assert_eq!(choose_output_type(&[], h264), None);
}

#[test]
fn output_drain_collects_until_no_more_output() {
    let mut d = OutputDrain::new();
    assert!(d.begin_round());
    assert_eq!(d.round_result(OutputPoll::Sample, &[1, 2]), DrainStep::AskAgain);
    assert!(d.begin_round());
    assert_eq!(d.round_result(OutputPoll::NoSample, &[]), DrainStep::AskAgain);
    assert!(d.begin_round());
    assert_eq!(d.round_result(OutputPoll::Sample, &[3]), DrainStep::AskAgain);
    assert!(d.begin_round());
    assert_eq!(d.round_result(OutputPoll::NeedMoreInput, &[]), DrainStep::Finish);
    assert_eq!(d.into_data(), vec![1u8, 2, 3]);

    let mut d = OutputDrain::new();
    assert!(d.begin_round());
    assert_eq!(d.round_result(OutputPoll::Failed, &[]), DrainStep::Fail);

    let mut d = OutputDrain::new();
    for _ in 0..100 {
        assert!(d.begin_round());
        assert_eq!(d.round_result(OutputPoll::NoSample, &[]), DrainStep::AskAgain);
    }
    assert!(!d.begin_round());
}
