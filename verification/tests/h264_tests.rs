use desktop_services::annexb::{annexb_from_bitstream, EncodedLayers, NalLayer};
use desktop_services::codec::{Av1OutputState, CodecType, H264OutputState};
use desktop_services::core_types::VideoCodec;
use desktop_services::h264_mf;
use desktop_services::nal::{annexb_from_mf_data, is_annexb_format, parse_avc_decoder_config};

#[test]
fn annexb_detection() {
    assert!(is_annexb_format(&[0, 0, 0, 1, 0x67]));
    assert!(is_annexb_format(&[0, 0, 1, 0x65]));
    assert!(!is_annexb_format(&[0, 0, 1]));
    assert!(!is_annexb_format(&[0, 0, 0, 5, 0x65]));
    assert!(!is_annexb_format(&[]));
}

#[test]
fn avcc_units_get_start_codes() {
    let avcc = [0u8, 0, 0, 2, 0x67, 0xAA, 0, 0, 0, 1, 0x65];
    let (out, has_ps) = annexb_from_mf_data(&avcc);
    assert_eq!(out, vec![0u8, 0, 0, 1, 0x67, 0xAA, 0, 0, 0, 1, 0x65]);
    assert!(has_ps);
}

#[test]
fn annexb_input_passes_through() {
    let data = [0u8, 0, 0, 1, 0x65, 0x88];
    let (out, has_ps) = annexb_from_mf_data(&data);
    assert_eq!(out, data.to_vec());
    assert!(!has_ps);

    let with_ps = [0u8, 0, 0, 1, 0x67, 1, 0, 0, 1, 0x68, 2];
    let (out, has_ps) = annexb_from_mf_data(&with_ps);
    assert_eq!(out, with_ps.to_vec());
    assert!(has_ps);
}

#[test]
fn malformed_avcc_prefix_copies_the_rest() {
    let (out, has_ps) = annexb_from_mf_data(&[0, 0, 0, 9, 1, 2]);
    assert_eq!(out, vec![1u8, 2]);
    assert!(!has_ps);
    let (out, has_ps) = annexb_from_mf_data(&[0, 0, 0, 0, 5]);
    assert_eq!(out, vec![5u8]);
    assert!(!has_ps);
}

#[test]
fn trailing_fragment_is_kept() {
    let (out, has_ps) = annexb_from_mf_data(&[0, 0, 0, 2, 0x41, 0x42, 9, 9]);
    assert_eq!(out, vec![0u8, 0, 0, 1, 0x41, 0x42, 9, 9]);
    assert!(!has_ps);
}

#[test]
fn strict_conversion_keeps_empty_units_and_drops_bad_tail() {
    let data = [0u8, 0, 0, 2, 0x67, 0xAA, 0, 0, 0, 0, 0, 0, 0, 9, 1];
    let (out, has_ps) = h264_mf::annexb_from_mf_data(&data);
    assert_eq!(out, vec![0u8, 0, 0, 1, 0x67, 0xAA, 0, 0, 0, 1]);
    assert!(has_ps);

    let (out, has_ps) = h264_mf::annexb_from_mf_data(&[0, 0, 0, 1, 0x65, 7, 7]);
    assert_eq!(out, vec![0u8, 0, 0, 1, 0x65]);
    assert!(!has_ps);
}

#[test]
fn avc_decoder_config_gives_first_sps_and_pps() {
    let avcc = [
        1u8, 0x64, 0, 0x1F, 0xFF, 0xE1, 0, 2, 0x67, 0x64, 1, 0, 3, 0x68, 0xEE, 0x3C,
    ];
    assert_eq!(
        parse_avc_decoder_config(&avcc),
        Some((vec![0x67u8, 0x64], vec![0x68u8, 0xEE, 0x3C]))
    );
}

#[test]
fn avc_decoder_config_rejects_bad_records() {
    // Too short.
    assert_eq!(parse_avc_decoder_config(&[1, 0, 0, 0, 0, 0]), None);
    // Wrong version.
    assert_eq!(
        parse_avc_decoder_config(&[0u8, 0x64, 0, 0x1F, 0xFF, 0xE1, 0, 1, 0x67, 1, 0, 1, 0x68]),
        None
    );
    // No PPS count after the SPS.
    assert_eq!(parse_avc_decoder_config(&[1, 0, 0, 0, 0xFF, 0xE1, 0, 1, 0x67]), None);
    // SPS longer than the record.
    assert_eq!(parse_avc_decoder_config(&[1, 0, 0, 0, 0xFF, 0xE1, 0, 5, 0x67]), None);
    // No PPS at all.
    assert_eq!(parse_avc_decoder_config(&[1, 0, 0, 0, 0xFF, 0xE1, 0, 1, 0x67, 0]), None);
}

#[test]
fn bitstream_layers_are_packed_in_order() {
    let layers = EncodedLayers {
        layers: vec![
            Some(NalLayer {
                nal_units: vec![
                    Some(vec![0, 0, 0, 1, 0x67, 1]),
                    Some(vec![0x68, 2]),
                    Some(vec![]),
                    None,
                ],
            }),
            None,
            Some(NalLayer {
                nal_units: vec![Some(vec![0x65, 3]), Some(vec![0, 0, 0, 1])],
            }),
        ],
    };
    let (out, has_ps) = annexb_from_bitstream(&layers);
    assert_eq!(
        out,
        vec![0u8, 0, 0, 1, 0x67, 1, 0, 0, 0, 1, 0x68, 2, 0, 0, 0, 1, 0x65, 3]
    );
    assert!(has_ps);

    let (out, has_ps) = annexb_from_bitstream(&EncodedLayers { layers: vec![] });
    assert!(out.is_empty());
    assert!(!has_ps);
}

#[test]
fn parameter_sets_are_injected_into_the_first_keyframe_only() {
    let mut state = H264OutputState::new();
    assert!(state.needs_codec_config(false, true));
    assert!(!state.needs_codec_config(true, true));
    assert!(!state.needs_codec_config(false, false));

    let config = Some((vec![0x67u8, 1], vec![0x68u8, 2]));
    let frame = state.finish(&[0, 0, 0, 1, 0x65], true, config.clone());
    assert_eq!(
        frame.data,
        vec![0u8, 0, 0, 1, 0x67, 1, 0, 0, 0, 1, 0x68, 2, 0, 0, 0, 1, 0x65]
    );
    assert!(frame.is_keyframe);
    assert!(!state.needs_codec_config(false, true));

    let frame = state.finish(&[0, 0, 0, 1, 0x65], true, config);
    assert_eq!(frame.data, vec![0u8, 0, 0, 1, 0x65]);
    assert!(frame.is_keyframe);
}

#[test]
fn samples_with_parameter_sets_are_keyframes() {
    let mut state = H264OutputState::new();
    let frame = state.finish(&[0, 0, 0, 2, 0x67, 1, 0, 0, 0, 1, 0x65], false, None);
    assert!(frame.is_keyframe);
    assert_eq!(frame.data, vec![0u8, 0, 0, 1, 0x67, 1, 0, 0, 0, 1, 0x65]);
    // After a keyframe with parameter sets nothing is injected any more.
    assert!(!state.needs_codec_config(false, true));

    let mut state = H264OutputState::new();
    let frame = state.finish(&[0, 0, 0, 1, 0x41], false, Some((vec![0x67], vec![0x68])));
    assert!(!frame.is_keyframe);
    assert_eq!(frame.data, vec![0u8, 0, 0, 1, 0x41]);
    // A keyframe without a known configuration goes out unchanged.
    let frame = state.finish(&[0, 0, 0, 1, 0x65], true, None);
    assert!(frame.is_keyframe);
    assert_eq!(frame.data, vec![0u8, 0, 0, 1, 0x65]);
    assert!(state.needs_codec_config(false, true));
}

#[test]
fn codec_types_map_to_video_codecs() {
    assert_eq!(CodecType::H264.video_codec(), VideoCodec::H264);
    assert_eq!(VideoCodec::from(CodecType::AV1), VideoCodec::AV1);
}

#[test]
fn converting_converted_output_changes_nothing() {
    let avcc = [0u8, 0, 0, 2, 0x67, 0xAA, 0, 0, 0, 3, 0x65, 1, 2];
    let (once, ps_once) = annexb_from_mf_data(&avcc);
    let (twice, ps_twice) = annexb_from_mf_data(&once);
    assert_eq!(once, twice);
    assert_eq!(ps_once, ps_twice);
}

#[test]
fn av1_sequence_header_precedes_the_first_keyframe_only() {
    let mut state = Av1OutputState::new();
    let config = Some(vec![0x0Au8, 0x0B]);
    let frame = state.finish(vec![1, 2], false, &config);
    assert_eq!(frame.data, vec![1u8, 2]);
    assert!(!frame.is_keyframe);
    let frame = state.finish(vec![3], true, &config);
    assert_eq!(frame.data, vec![0x0Au8, 0x0B, 3]);
    assert!(frame.is_keyframe);
    let frame = state.finish(vec![4], true, &config);
    assert_eq!(frame.data, vec![4u8]);
    assert!(frame.is_keyframe);

    // Without a known header the first keyframe still counts as sent.
    let mut state = Av1OutputState::new();
    let frame = state.finish(vec![5], true, &None);
    assert_eq!(frame.data, vec![5u8]);
    let frame = state.finish(vec![6], true, &Some(vec![0x0A]));
    assert_eq!(frame.data, vec![6u8]);
}
