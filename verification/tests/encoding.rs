use tokimo_package_ffmpeg::common::encoding::{
    codec_factor_tenths_of, is_unsupported_audio_codec, scale_video_bitrate, MAX_VIDEO_BITRATE_KBPS,
};
use tokimo_package_ffmpeg::{
    calculate_audio_output, calculate_output_video_bitrate, needs_audio_transcode, normalize_output_channels,
    BITRATE_PER_CHANNEL, DEFAULT_VIDEO_BITRATE_KBPS, MAX_AAC_CHANNELS, MAX_SURROUND_BITRATE,
};

#[test]
fn test_needs_audio_transcode() {
    assert!(needs_audio_transcode("ac3"));
    assert!(needs_audio_transcode("truehd"));
    assert!(needs_audio_transcode("DTS"));
    assert!(needs_audio_transcode("pcm_s16le"));
    assert!(needs_audio_transcode("pcm_s24le"));
    assert!(needs_audio_transcode("pcm_bluray"));
    assert!(!needs_audio_transcode("aac"));
    assert!(!needs_audio_transcode("mp3"));
    assert!(!needs_audio_transcode("opus"));

    assert!(!needs_audio_transcode("libfdk_aac"));
    assert!(!needs_audio_transcode("libopus"));
    assert!(!needs_audio_transcode("libvorbis"));
    assert!(!needs_audio_transcode("libmp3lame"));
}

#[test]
fn every_listed_codec_needs_transcoding() {
    for name in ["ac3", "eac3", "dts", "truehd", "pcm_s16le", "pcm_s24le", "pcm_s32le", "pcm_bluray", "pcm_dvd"] {
        assert!(needs_audio_transcode(name));
        assert!(needs_audio_transcode(&name.to_uppercase()));
        assert!(is_unsupported_audio_codec(name));
    }
    assert!(!is_unsupported_audio_codec("AC3"));
    assert!(!needs_audio_transcode(""));
    assert!(!needs_audio_transcode("ac3 "));
}

#[test]
fn test_normalize_output_channels() {
    assert_eq!(normalize_output_channels(0), 1);
    assert_eq!(normalize_output_channels(1), 1);
    assert_eq!(normalize_output_channels(2), 2);
    assert_eq!(normalize_output_channels(3), 2);
    assert_eq!(normalize_output_channels(4), 2);
    assert_eq!(normalize_output_channels(5), 6);
    assert_eq!(normalize_output_channels(6), 6);
    assert_eq!(normalize_output_channels(7), 8);
    assert_eq!(normalize_output_channels(8), 8);
}

#[test]
fn output_channels_pass_through_from_eight_and_are_idempotent() {
    assert_eq!(normalize_output_channels(16), 16);
    assert_eq!(normalize_output_channels(u32::MAX), u32::MAX);
    for c in 0..40u32 {
        let once = normalize_output_channels(c);
        assert_eq!(normalize_output_channels(once), once);
        assert!(once >= 1 && once != 3 && once != 4 && once != 5 && once != 7);
    }
}

#[test]
fn test_calculate_audio_output() {
    let (br, ch) = calculate_audio_output(1);
    assert_eq!(ch, 1);
    assert_eq!(br, 128);

    let (br, ch) = calculate_audio_output(2);
    assert_eq!(ch, 2);
    assert_eq!(br, 256);

    let (br, ch) = calculate_audio_output(6);
    assert_eq!(ch, 6);
    assert_eq!(br, MAX_SURROUND_BITRATE);

    let (br, ch) = calculate_audio_output(5);
    assert_eq!(ch, 6);
    assert_eq!(br, MAX_SURROUND_BITRATE);
}

#[test]
fn audio_output_is_capped_at_five_one() {
    assert_eq!(calculate_audio_output(0), (BITRATE_PER_CHANNEL, 1));
    assert_eq!(calculate_audio_output(4), (256, 2));
    assert_eq!(calculate_audio_output(7), (MAX_SURROUND_BITRATE, MAX_AAC_CHANNELS));
    assert_eq!(calculate_audio_output(8), (640, 6));
    assert_eq!(calculate_audio_output(u32::MAX), (640, 6));
    for c in 0..64u32 {
        let (br, ch) = calculate_audio_output(c);
        assert!(ch == 1 || ch == 2 || ch == 6);
        assert!(br <= MAX_SURROUND_BITRATE);
    }
}

#[test]
fn test_video_bitrate_scaling() {
    assert_eq!(
        calculate_output_video_bitrate(None, "hevc", "h264"),
        DEFAULT_VIDEO_BITRATE_KBPS
    );
    assert_eq!(
        calculate_output_video_bitrate(Some(0), "hevc", "h264"),
        DEFAULT_VIDEO_BITRATE_KBPS
    );

    let result = calculate_output_video_bitrate(Some(10_000_000), "hevc", "h264");
    assert!(result > 10_000);

    let result = calculate_output_video_bitrate(Some(10_000_000), "h264", "h264");
    assert_eq!(result, 10_000);

    let result = calculate_output_video_bitrate(Some(40_000_000), "hevc", "h264");
    assert_eq!(result, 40_000);
}

#[test]
fn video_bitrate_exact_values() {
    // HEVC to H.264: 10 Mbps scaled by 1/0.6.
    assert_eq!(calculate_output_video_bitrate(Some(10_000_000), "hevc", "h264"), 16_666);
    assert_eq!(calculate_output_video_bitrate(Some(10_000_000), "HEVC", "H264"), 16_666);
    // AV1 to H.264: doubled.
    assert_eq!(calculate_output_video_bitrate(Some(10_000_000), "av1", "h264"), 20_000);
    // AV1 to HEVC: 0.6 / 0.5.
    assert_eq!(calculate_output_video_bitrate(Some(10_000_000), "av1", "hevc"), 12_000);
    // H.264 to HEVC: never reduced.
    assert_eq!(calculate_output_video_bitrate(Some(10_000_000), "h264", "hevc"), 10_000);
    assert_eq!(calculate_output_video_bitrate(Some(4_000_000), "vp9", "av1"), 4_000);
    // Low bitrate boosts.
    assert_eq!(calculate_output_video_bitrate(Some(500_000), "h264", "h264"), 2_000);
    assert_eq!(calculate_output_video_bitrate(Some(1_000_000), "h264", "h264"), 3_000);
    assert_eq!(calculate_output_video_bitrate(Some(2_000_000), "h264", "h264"), 5_000);
    assert_eq!(calculate_output_video_bitrate(Some(3_000_000), "hevc", "h264"), 6_000);
    assert_eq!(calculate_output_video_bitrate(Some(1), "h264", "h264"), 0);
    // From 30 Mbps on: unscaled, capped.
    assert_eq!(calculate_output_video_bitrate(Some(30_000_000), "av1", "h264"), 30_000);
    assert_eq!(calculate_output_video_bitrate(Some(29_999_999), "av1", "h264"), 59_999);
    assert_eq!(calculate_output_video_bitrate(Some(u64::MAX), "h264", "h264"), MAX_VIDEO_BITRATE_KBPS);
    assert_eq!(MAX_VIDEO_BITRATE_KBPS, i32::MAX as u64 / 2);
}

#[test]
fn video_bitrate_matches_floating_point_scaling() {
    fn factor(codec: &str) -> f64 {
        match codec.to_lowercase().as_str() {
            "hevc" | "vp9" => 0.6,
            "av1" => 0.5,
            _ => 1.0,
        }
    }
    fn float_scaled(b: u64, input: &str, output: &str) -> u64 {
        let mut scale = (factor(output) / factor(input)).max(1.0);
        if b <= 500_000 {
            scale = scale.max(4.0);
        } else if b <= 1_000_000 {
            scale = scale.max(3.0);
        } else if b <= 2_000_000 {
            scale = scale.max(2.5);
        } else if b <= 3_000_000 {
            scale = scale.max(2.0);
        } else if b >= 30_000_000 {
            scale = 1.0;
        }
        ((scale * b as f64) as u64 / 1000).min(i32::MAX as u64 / 2)
    }
    let codecs = ["h264", "hevc", "vp9", "av1"];
    let mut b: u64 = 1;
    while b < 40_000_000 {
        for i in codecs {
            for o in codecs {
                assert_eq!(calculate_output_video_bitrate(Some(b), i, o), float_scaled(b, i, o), "{b} {i} {o}");
            }
        }
        b = b * 3 / 2 + 7;
    }
    for b in (3_000_001..30_000_000u64).step_by(9_973) {
        for i in codecs {
            for o in codecs {
                assert_eq!(calculate_output_video_bitrate(Some(b), i, o), float_scaled(b, i, o), "{b} {i} {o}");
            }
        }
    }
    for b in 2_999_990..3_000_100u64 {
        assert_eq!(calculate_output_video_bitrate(Some(b), "hevc", "h264"), float_scaled(b, "hevc", "h264"));
        assert_eq!(calculate_output_video_bitrate(Some(b), "av1", "hevc"), float_scaled(b, "av1", "hevc"));
    }
}

#[test]
fn scaling_on_lower_case_names() {
    assert_eq!(codec_factor_tenths_of("hevc"), 6);
    assert_eq!(codec_factor_tenths_of("vp9"), 6);
    assert_eq!(codec_factor_tenths_of("av1"), 5);
    assert_eq!(codec_factor_tenths_of("HEVC"), 10);
    assert_eq!(scale_video_bitrate(Some(10_000_000), "hevc", "h264"), 16_666);
    assert_eq!(scale_video_bitrate(Some(10_000_000), "HEVC", "h264"), 10_000);
    assert_eq!(scale_video_bitrate(None, "av1", "h264"), DEFAULT_VIDEO_BITRATE_KBPS);
}
