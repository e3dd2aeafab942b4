use desktop_services::audio::{
    check_wav_spec, convert_to_stereo, read_wav_format, split_into_frames, FrameAccumulator, MockAudioClock,
    OpusEncoderFactory, WavSampleKind, WavSpecError, FRAME_DURATION_US, SAMPLES_PER_FRAME_STEREO,
};

#[test]
fn frame_constants() {
    assert_eq!(SAMPLES_PER_FRAME_STEREO, 960);
    assert_eq!(FRAME_DURATION_US, 10_000);
    let _factory = OpusEncoderFactory::new();
}

#[test]
fn mono_is_duplicated_into_both_channels() {
    assert_eq!(convert_to_stereo(&[1i16, 2, 3], 1), vec![1i16, 1, 2, 2, 3, 3]);
}

#[test]
fn stereo_is_kept() {
    assert_eq!(convert_to_stereo(&[0.5f32, -0.5, 0.25, 1.0], 2), vec![0.5f32, -0.5, 0.25, 1.0]);
}

#[test]
fn multichannel_keeps_the_first_two_channels_of_whole_frames() {
    assert_eq!(convert_to_stereo(&[1i32, 2, 3, 4, 5, 6, 7], 3), vec![1i32, 2, 4, 5]);
    assert_eq!(
        convert_to_stereo(&[1i32, 2, 3, 4, 5, 6, 7, 8, 9, 10, 11, 12], 6),
        vec![1i32, 2, 7, 8]
    );
}

#[test]
fn samples_are_cut_into_padded_frames() {
    assert_eq!(
        split_into_frames(&[1i16, 2, 3, 4, 5], 2, 0),
        vec![vec![1i16, 2], vec![3, 4], vec![5, 0]]
    );
    assert_eq!(split_into_frames(&[1i16, 2, 3, 4], 2, 0), vec![vec![1i16, 2], vec![3, 4]]);
    assert!(split_into_frames::<i16>(&[], 960, 0).is_empty());
}

#[test]
fn one_second_of_stereo_makes_a_hundred_frames() {
    let samples = vec![0.1f32; 48_000 * 2];
    let frames = split_into_frames(&samples, SAMPLES_PER_FRAME_STEREO, 0.0);
    assert_eq!(frames.len(), 100);
    assert!(frames.iter().all(|f| f.len() == 960));
}

#[test]
fn mock_clock_emits_nothing_before_start() {
    let mut clock = MockAudioClock::new(3);
    assert_eq!(clock.tick(), None);
}

#[test]
fn mock_clock_loops_over_the_recording_with_increasing_timestamps() {
    let mut clock = MockAudioClock::new(3);
    clock.start();
    assert_eq!(clock.tick(), Some((0, 0)));
    assert_eq!(clock.tick(), Some((1, 10_000)));
    assert_eq!(clock.tick(), Some((2, 20_000)));
    assert_eq!(clock.tick(), Some((0, 30_000)));
    clock.stop();
    assert_eq!(clock.tick(), None);
    // A restart begins again at the first frame and timestamp zero.
    clock.start();
    assert_eq!(clock.tick(), Some((0, 0)));
}

#[test]
fn mock_clock_timestamps_span_frame_count_times_ten_ms() {
    let mut clock = MockAudioClock::new(100);
    clock.start();
    let mut last = None;
    for _ in 0..450 {
        let (_, ts) = clock.tick().unwrap();
        if let Some(prev) = last {
            assert!(ts > prev, "Timestamps should be monotonically increasing");
        }
        last = Some(ts);
    }
    assert_eq!(last, Some(449 * 10_000));
}

#[test]
fn accumulator_hands_out_frames_in_order() {
    let mut acc = FrameAccumulator::new();
    acc.push_samples(&[1u8, 2, 3]);
    acc.push_samples(&[4u8, 5]);
    assert_eq!(acc.len(), 5);
    assert_eq!(acc.pop_frame(2), Some(vec![1u8, 2]));
    assert_eq!(acc.pop_frame(2), Some(vec![3u8, 4]));
    assert_eq!(acc.pop_frame(2), None);
    assert_eq!(acc.len(), 1);
    acc.push_samples(&[6u8]);
    assert_eq!(acc.pop_frame(2), Some(vec![5u8, 6]));
    assert_eq!(acc.len(), 0);
}

#[test]
fn wav_spec_checks() {
    assert_eq!(check_wav_spec(48_000, 2, false, 16), Ok(WavSampleKind::Int16));
    assert_eq!(check_wav_spec(44_100, 1, false, 32), Ok(WavSampleKind::Int32));
    assert_eq!(check_wav_spec(192_000, 8, true, 32), Ok(WavSampleKind::Float));
    assert_eq!(
        check_wav_spec(192_001, 2, false, 16),
        Err(WavSpecError::SampleRateTooHigh(192_001))
    );
    assert_eq!(check_wav_spec(48_000, 0, false, 16), Err(WavSpecError::InvalidChannelCount(0)));
    assert_eq!(check_wav_spec(48_000, 9, true, 32), Err(WavSpecError::InvalidChannelCount(9)));
    assert_eq!(check_wav_spec(48_000, 2, false, 24), Err(WavSpecError::UnsupportedBitDepth(24)));
}

fn wav_bytes(format_tag: u16, channels: u16, sample_rate: u32, bits: u16, data_len: u32) -> Vec<u8> {
    let block_align = channels * bits / 8;
    let byte_rate = block_align as u32 * sample_rate;
    let mut b = Vec::new();
    b.extend_from_slice(b"RIFF");
    b.extend_from_slice(&(4 + 8 + 16 + 8 + data_len).to_le_bytes());
    b.extend_from_slice(b"WAVE");
    b.extend_from_slice(b"fmt ");
    b.extend_from_slice(&16u32.to_le_bytes());
    b.extend_from_slice(&format_tag.to_le_bytes());
    b.extend_from_slice(&channels.to_le_bytes());
    b.extend_from_slice(&sample_rate.to_le_bytes());
    b.extend_from_slice(&byte_rate.to_le_bytes());
    b.extend_from_slice(&block_align.to_le_bytes());
    b.extend_from_slice(&bits.to_le_bytes());
    b.extend_from_slice(b"data");
    b.extend_from_slice(&data_len.to_le_bytes());
    b.extend(std::iter::repeat(0u8).take(data_len as usize));
    b
}

#[test]
fn wav_headers_are_read_and_checked() {
    assert_eq!(read_wav_format(&wav_bytes(1, 2, 48_000, 16, 8)), Ok(WavSampleKind::Int16));
    assert_eq!(read_wav_format(&wav_bytes(1, 1, 44_100, 32, 8)), Ok(WavSampleKind::Int32));
    assert_eq!(read_wav_format(&wav_bytes(3, 2, 48_000, 32, 16)), Ok(WavSampleKind::Float));
    assert_eq!(
        read_wav_format(&wav_bytes(1, 1, 22_050, 8, 4)),
        Err(WavSpecError::UnsupportedBitDepth(8))
    );
    assert_eq!(
        read_wav_format(&wav_bytes(1, 2, 200_000, 16, 8)),
        Err(WavSpecError::SampleRateTooHigh(200_000))
    );
    assert_eq!(
        read_wav_format(&wav_bytes(1, 9, 48_000, 16, 18)),
        Err(WavSpecError::InvalidChannelCount(9))
    );
}

#[test]
fn unreadable_wav_is_malformed() {
    assert_eq!(read_wav_format(b"not a wave file"), Err(WavSpecError::Malformed));
    assert_eq!(read_wav_format(&[]), Err(WavSpecError::Malformed));
}
