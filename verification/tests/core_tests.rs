use desktop_services::character::{DeviceType, Matcher};
use desktop_services::core_types::{CaptureConfig, CaptureSize, ShutdownError, VideoCodec};
use desktop_services::job_slot::JobSlot;
use desktop_services::ntp::{ntp_from_unix_parts, system_time_to_ntp, NTP_EPOCH_OFFSET};

fn tags(ts: &[&str]) -> Vec<String> {
    ts.iter().map(|t| t.to_string()).collect()
}

#[test]
fn default_capture_config() {
    let c = CaptureConfig::default();
    assert_eq!(c.size, CaptureSize::UseSourceSize);
    assert_eq!(c.fps, 45);
}

#[test]
fn codec_names_parse_ignoring_case() {
    assert_eq!(VideoCodec::parse("H264"), Ok(VideoCodec::H264));
    assert_eq!(VideoCodec::parse("h.264"), Ok(VideoCodec::H264));
    assert_eq!(VideoCodec::parse("Av1"), Ok(VideoCodec::AV1));
    assert_eq!("h264".parse::<VideoCodec>(), Ok(VideoCodec::H264));
}

#[test]
fn unknown_codec_names_are_refused() {
    assert_eq!(
        VideoCodec::parse("VP8"),
        Err("unsupported codec string: vp8".to_string())
    );
    assert_eq!(VideoCodec::parse(""), Err("unsupported codec string: ".to_string()));
    assert!("h265".parse::<VideoCodec>().is_err());
}

#[test]
fn ntp_of_the_unix_epoch() {
    assert_eq!(NTP_EPOCH_OFFSET, 2_208_988_800);
    assert_eq!(ntp_from_unix_parts(0, 0), 2_208_988_800u64 << 32);
    assert_eq!(ntp_from_unix_parts(0, 500_000_000), (2_208_988_800u64 << 32) | 0x8000_0000);
    assert_eq!(system_time_to_ntp(std::time::UNIX_EPOCH), 2_208_988_800u64 << 32);
}

#[test]
fn ntp_fraction_and_era_wrap() {
    // One nanosecond is about 4.29 units of 2^-32 s.
    assert_eq!(ntp_from_unix_parts(1, 1), ((2_208_988_801u64) << 32) | 4);
    // The first second of NTP era 1 (2036-02-07) wraps to zero.
    assert_eq!(ntp_from_unix_parts((1u64 << 32) - NTP_EPOCH_OFFSET, 0), 0);
}

#[test]
fn ntp_of_a_time_before_the_epoch_is_the_epoch() {
    let before = std::time::UNIX_EPOCH - std::time::Duration::from_secs(10);
    assert_eq!(system_time_to_ntp(before), 2_208_988_800u64 << 32);
    let later = std::time::UNIX_EPOCH + std::time::Duration::new(5, 250_000_000);
    assert_eq!(system_time_to_ntp(later), ntp_from_unix_parts(5, 250_000_000));
}

#[test]
fn job_slot_keeps_only_the_latest_job() {
    let mut slot = JobSlot::new();
    assert_eq!(slot.try_take(), None);
    slot.set(1);
    slot.set(2);
    assert_eq!(slot.try_take(), Some(Ok(2)));
    assert_eq!(slot.try_take(), None);
}

#[test]
fn job_slot_refuses_takes_after_shutdown() {
    let mut slot = JobSlot::new();
    slot.set(3);
    assert!(!slot.is_shut_down());
    slot.shutdown();
    assert!(slot.is_shut_down());
    assert_eq!(slot.try_take(), Some(Err(ShutdownError)));
    slot.set(4);
    assert_eq!(slot.try_take(), Some(Err(ShutdownError)));
    assert_eq!(ShutdownError.message(), "EncodeJobSlot has been shut down");
}

#[test]
fn device_type() {
    assert!(DeviceType::Gpu.uses_gpu());
    assert!(!DeviceType::Cpu.uses_gpu());
}

#[test]
fn hard_filter_rejects_conflicting_hair_colour() {
    let reference = tags(&["blue_hair", "1girl"]);
    assert!(!Matcher::check_hard_filter("CharB", &reference, &tags(&["red_hair", "1girl"])));
    assert!(Matcher::check_hard_filter("CharA", &reference, &tags(&["blue_hair", "1girl"])));
}

#[test]
fn hard_filter_passes_when_one_side_has_no_tag_of_a_group() {
    let reference = tags(&["blue_hair", "long_hair"]);
    assert!(Matcher::check_hard_filter("CharC", &reference, &tags(&["1girl"])));
    assert!(Matcher::check_hard_filter("CharC", &tags(&[]), &tags(&["red_eyes"])));
}

#[test]
fn hard_filter_checks_eyes_and_hair_length_too() {
    let reference = tags(&["blue_eyes", "short_hair"]);
    assert!(!Matcher::check_hard_filter("X", &reference, &tags(&["red_eyes"])));
    assert!(!Matcher::check_hard_filter("X", &reference, &tags(&["long_hair"])));
    // A shared tag of the group is enough, even beside a differing one.
    assert!(Matcher::check_hard_filter(
        "X",
        &reference,
        &tags(&["red_eyes", "blue_eyes", "short_hair"])
    ));
}

#[test]
fn tag_overlap_counts_shared_tags_and_union() {
    let reference = tags(&["blue_hair", "1girl"]);
    let face = tags(&["blue_hair", "smile", "long_hair"]);
    assert_eq!(Matcher::tag_overlap(&reference, &face), (1, 4));
    assert_eq!(Matcher::tag_overlap(&tags(&[]), &tags(&[])), (0, 0));
    assert_eq!(Matcher::tag_overlap(&reference, &reference), (2, 2));
}

#[test]
fn ntp_timestamps_grow_with_time() {
    let a = ntp_from_unix_parts(1_700_000_000, 999_999_999);
    let b = ntp_from_unix_parts(1_700_000_001, 0);
    let c = ntp_from_unix_parts(1_700_000_001, 1_000);
    assert!(a < b && b < c);
}

#[test]
fn ntp_of_a_time_after_the_epoch() {
    let t = std::time::UNIX_EPOCH + std::time::Duration::from_millis(1500);
    assert_eq!(system_time_to_ntp(t), 0x83AA_7E81_8000_0000);
}
