use tokimo_package_ffmpeg::common::codec::canonical_subtitle_codec;
use tokimo_package_ffmpeg::{normalize_audio_codec, normalize_subtitle_codec, normalize_video_codec};

#[test]
fn test_video_codec_normalization() {
    assert_eq!(normalize_video_codec("h264"), "h264");
    assert_eq!(normalize_video_codec("hevc"), "hevc");
    assert_eq!(normalize_video_codec("av1"), "av1");
    assert_eq!(normalize_video_codec("vp9"), "vp9");
    assert_eq!(normalize_video_codec("vp8"), "vp8");
    assert_eq!(normalize_video_codec("H264"), "h264");
}

#[test]
fn test_audio_codec_normalization() {
    assert_eq!(normalize_audio_codec("aac"), "aac");
    assert_eq!(normalize_audio_codec("mp3"), "mp3");
    assert_eq!(normalize_audio_codec("ac3"), "ac3");
    assert_eq!(normalize_audio_codec("eac3"), "eac3");
    assert_eq!(normalize_audio_codec("dts"), "dts");
    assert_eq!(normalize_audio_codec("truehd"), "truehd");
    assert_eq!(normalize_audio_codec("mlp"), "mlp");
    assert_eq!(normalize_audio_codec("opus"), "opus");
    assert_eq!(normalize_audio_codec("flac"), "flac");
    assert_eq!(normalize_audio_codec("AAC"), "aac");
}

#[test]
fn test_subtitle_codec_normalization() {
    assert_eq!(normalize_subtitle_codec("hdmv_pgs_subtitle"), "pgs");
    assert_eq!(normalize_subtitle_codec("dvd_subtitle"), "dvdsub");
    assert_eq!(normalize_subtitle_codec("dvb_subtitle"), "dvbsub");
    assert_eq!(normalize_subtitle_codec("subrip"), "srt");
    assert_eq!(normalize_subtitle_codec("ssa"), "ass");
    assert_eq!(normalize_subtitle_codec("webvtt"), "vtt");
    assert_eq!(normalize_subtitle_codec("mov_text"), "srt");
    assert_eq!(normalize_subtitle_codec("text"), "srt");
    assert_eq!(normalize_subtitle_codec("hdmv_text_subtitle"), "srt");
    assert_eq!(normalize_subtitle_codec("eia_608"), "cc");
    assert_eq!(normalize_subtitle_codec("dvb_teletext"), "teletext");

    assert_eq!(normalize_subtitle_codec("srt"), "srt");
    assert_eq!(normalize_subtitle_codec("ass"), "ass");
    assert_eq!(normalize_subtitle_codec("vtt"), "vtt");
    assert_eq!(normalize_subtitle_codec("ttml"), "ttml");
    assert_eq!(normalize_subtitle_codec("microdvd"), "microdvd");
    assert_eq!(normalize_subtitle_codec("xsub"), "xsub");
}

#[test]
fn subtitle_descriptor_names_are_case_insensitive() {
    assert_eq!(normalize_subtitle_codec("HDMV_PGS_SUBTITLE"), "pgs");
    assert_eq!(normalize_subtitle_codec("SubRip"), "srt");
    assert_eq!(normalize_subtitle_codec("TTML"), "ttml");
}

#[test]
fn subtitle_normalization_is_idempotent() {
    for name in [
        "hdmv_pgs_subtitle", "dvd_subtitle", "dvb_subtitle", "subrip", "ssa", "webvtt", "mov_text",
        "text", "hdmv_text_subtitle", "eia_608", "dvb_teletext", "ttml", "XSUB",
    ] {
        let once = normalize_subtitle_codec(name);
        assert_eq!(normalize_subtitle_codec(&once), once);
    }
}

#[test]
fn canonical_subtitle_mapping_needs_lower_case_input() {
    assert_eq!(canonical_subtitle_codec("subrip"), "srt");
    assert_eq!(canonical_subtitle_codec("SUBRIP"), "SUBRIP");
    assert_eq!(canonical_subtitle_codec(""), "");
}

#[test]
fn lowercasing_handles_non_ascii_text() {
    assert_eq!(normalize_video_codec("ÀV1"), "àv1");
    assert_eq!(normalize_audio_codec(""), "");
}

#[test]
fn codec_normalization_is_idempotent() {
    let once = normalize_video_codec("HeVc");
    assert_eq!(once, "hevc");
    assert_eq!(normalize_video_codec(&once), once);
}
