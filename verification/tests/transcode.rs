use std::sync::atomic::Ordering;

use tokimo_package_ffmpeg::transcode::pass::analyze::{plan_stream_mapping, StreamInfo, StreamMapping};
use tokimo_package_ffmpeg::transcode::pipeline::{audio_continues, audio_finish, AudioFinish, PrerollCounter};
use tokimo_package_ffmpeg::transcode::session::{
    audio_decoder_threads, copy_pipeline, gpu_pipeline, video_decoder_threads, FallbackLevel, FilterBackend,
    format_start_time, initial_pass_outcome, pass_video_codec_name, plan_devices, plan_session, seek_pass_hls,
    seek_pass_outcome, session_pipeline, DevicePlan, DeviceSource, HwPipeline, HwType, PassOutcome, ProbeLimits,
};
use tokimo_package_ffmpeg::transcode::types::{MediaKind, NOPTS_VALUE};
use tokimo_package_ffmpeg::{cancellation_token, pause_token, HlsOptions, HlsSegmentType};

fn stream(kind: MediaKind) -> StreamInfo {
    StreamInfo { kind, attached_pic: false }
}

#[test]
fn tokens_start_unset() {
    let c = cancellation_token();
    let p = pause_token();
    assert!(!c.load(Ordering::Relaxed));
    assert!(!p.load(Ordering::Relaxed));
    let c2 = c.clone();
    c2.store(true, Ordering::Relaxed);
    assert!(c.load(Ordering::Relaxed));
}

#[test]
fn segment_extensions() {
    assert_eq!(HlsSegmentType::Fmp4.extension(), "tokimo");
    assert_eq!(HlsSegmentType::Mpegts.extension(), "ts");
    assert_eq!(HlsSegmentType::default(), HlsSegmentType::Fmp4);
}

fn hls() -> HlsOptions {
    HlsOptions {
        segment_duration: 6,
        segment_pattern: "/tmp/hls/%05d.tokimo".to_string(),
        init_filename: "init.mp4".to_string(),
        playlist_type: "event".to_string(),
        start_number: 0,
        segment_type: HlsSegmentType::Fmp4,
    }
}

#[test]
fn seek_restart_keeps_hls_settings_but_start_number() {
    let h = hls();
    let r = seek_pass_hls(&Some(h.clone()), 42).unwrap();
    assert_eq!(r.start_number, 42);
    assert_eq!(r.segment_duration, 6);
    assert_eq!(r.segment_pattern, h.segment_pattern);
    assert_eq!(r.init_filename, "init.mp4");
    assert_eq!(r.playlist_type, "event");
    assert_eq!(r.segment_type, HlsSegmentType::Fmp4);
    assert!(seek_pass_hls(&None, 42).is_none());
}

#[test]
fn stream_mapping_selects_first_video_and_audio() {
    let streams = vec![
        stream(MediaKind::Video),
        StreamInfo { kind: MediaKind::Video, attached_pic: true },
        stream(MediaKind::Audio),
        stream(MediaKind::Subtitle),
        stream(MediaKind::Audio),
        stream(MediaKind::Video),
        stream(MediaKind::Attachment),
        stream(MediaKind::Data),
    ];
    let a = plan_stream_mapping(&streams, false, false, true, Some(true));
    assert_eq!(a.nb_streams, 8);
    assert_eq!(a.out_stream_count, 2);
    assert_eq!(
        a.stream_map,
        vec![
            StreamMapping::Video { in_idx: 0, out_idx: 0, gpu_pipeline: true },
            StreamMapping::Ignore,
            StreamMapping::Audio { in_idx: 2, out_idx: 1 },
            StreamMapping::Ignore,
            StreamMapping::Ignore,
            StreamMapping::Ignore,
            StreamMapping::Ignore,
            StreamMapping::Ignore,
        ]
    );
}

#[test]
fn stream_mapping_copy_modes() {
    let streams = vec![
        StreamInfo { kind: MediaKind::Video, attached_pic: true },
        stream(MediaKind::Audio),
        stream(MediaKind::Video),
        stream(MediaKind::Video),
    ];
    let a = plan_stream_mapping(&streams, true, false, false, None);
    assert_eq!(a.out_stream_count, 2);
    assert_eq!(
        a.stream_map,
        vec![
            StreamMapping::Ignore,
            StreamMapping::Audio { in_idx: 1, out_idx: 0 },
            StreamMapping::Copy { in_idx: 2, out_idx: 1 },
            StreamMapping::Ignore,
        ]
    );
    let b = plan_stream_mapping(&streams, true, true, false, None);
    assert_eq!(b.stream_map[1], StreamMapping::Copy { in_idx: 1, out_idx: 0 });
    let empty = plan_stream_mapping(&Vec::new(), false, false, false, None);
    assert_eq!(empty.out_stream_count, 0);
    assert!(empty.stream_map.is_empty());
}

#[test]
fn session_plan_for_copy_and_transcode() {
    let t = plan_session("libx264", "aac");
    assert!(!t.copy_video && !t.copy_audio && !t.generate_pts);
    assert_eq!(t.probe_limits, Some(ProbeLimits { probesize: 1_048_576, analyzeduration: 1_000_000 }));
    let c = plan_session("copy", "aac");
    assert!(c.copy_video && !c.copy_audio && c.generate_pts);
    assert_eq!(c.probe_limits, None);
    let a = plan_session("libx264", "copy");
    assert!(a.copy_audio && a.generate_pts && a.probe_limits.is_some());
    assert!(!plan_session("COPY", "aac").copy_video);
}

#[test]
fn device_plan_shares_or_reuses_devices() {
    assert_eq!(
        plan_devices(Some(HwType::Cuda), Some(HwType::Cuda), false),
        DevicePlan { decode: Some(DeviceSource::Create(HwType::Cuda)), encode: Some(DeviceSource::SharedWithDecoder(HwType::Cuda)) }
    );
    assert_eq!(
        plan_devices(Some(HwType::Vaapi), Some(HwType::Qsv), true),
        DevicePlan { decode: Some(DeviceSource::Cached(HwType::Vaapi)), encode: Some(DeviceSource::Cached(HwType::Qsv)) }
    );
    assert_eq!(
        plan_devices(None, Some(HwType::Qsv), false),
        DevicePlan { decode: None, encode: Some(DeviceSource::Create(HwType::Qsv)) }
    );
    assert_eq!(plan_devices(None, None, true), DevicePlan { decode: None, encode: None });
}

#[test]
fn pass_encoder_choice() {
    assert_eq!(pass_video_codec_name("copy", false, false, "libx264"), None);
    assert_eq!(pass_video_codec_name("h264_nvenc", true, true, "libx264").as_deref(), Some("h264_nvenc"));
    assert_eq!(pass_video_codec_name("h264_nvenc", true, false, "libx264").as_deref(), Some("libx264"));
    assert_eq!(pass_video_codec_name("libx265", false, false, "libx264").as_deref(), Some("libx265"));
}

#[test]
fn start_time_and_pass_outcomes() {
    assert_eq!(format_start_time(NOPTS_VALUE), 0);
    assert_eq!(format_start_time(1_400_000), 1_400_000);
    assert_eq!(format_start_time(-5), -5);

    assert_eq!(seek_pass_outcome(true, false), PassOutcome::Finished { completed: true });
    assert_eq!(seek_pass_outcome(true, true), PassOutcome::Finished { completed: false });
    assert_eq!(seek_pass_outcome(false, true), PassOutcome::Finished { completed: false });
    assert_eq!(seek_pass_outcome(false, false), PassOutcome::Failed);
    assert_eq!(initial_pass_outcome(true, true), PassOutcome::Finished { completed: false });
    assert_eq!(initial_pass_outcome(false, true), PassOutcome::Failed);
}

#[test]
fn gpu_pipeline_needs_decode_device_and_hardware_encoder() {
    assert!(gpu_pipeline(true, Some(true)));
    assert!(!gpu_pipeline(true, Some(false)));
    assert!(!gpu_pipeline(true, None));
    assert!(!gpu_pipeline(false, Some(true)));
    let streams = vec![stream(MediaKind::Video)];
    let no_device = plan_stream_mapping(&streams, false, false, false, Some(true));
    assert_eq!(no_device.stream_map, vec![StreamMapping::Video { in_idx: 0, out_idx: 0, gpu_pipeline: false }]);
    let sw_encoder = plan_stream_mapping(&streams, false, false, true, Some(false));
    assert_eq!(sw_encoder.stream_map, vec![StreamMapping::Video { in_idx: 0, out_idx: 0, gpu_pipeline: false }]);
}

#[test]
fn copy_mode_pipeline() {
    let p = copy_pipeline();
    assert_eq!(p.decode, None);
    assert_eq!(p.encode, None);
    assert_eq!(p.filter, FilterBackend::Software);
    assert_eq!(p.encoder_name, "copy");
    assert_eq!(p.fallback, FallbackLevel::Software);
    assert_eq!(plan_devices(p.decode, p.encode, true), DevicePlan { decode: None, encode: None });
}

fn nvenc_pipeline() -> HwPipeline {
    HwPipeline {
        decode: Some(HwType::Cuda),
        filter: FilterBackend::Native,
        encode: Some(HwType::Cuda),
        encoder_name: "hevc_nvenc".to_string(),
        fallback: FallbackLevel::FullHw,
    }
}

#[test]
fn session_pipeline_choice() {
    let copied = session_pipeline(true, nvenc_pipeline());
    assert_eq!(copied.decode, None);
    assert_eq!(copied.encode, None);
    assert_eq!(copied.filter, FilterBackend::Software);
    assert_eq!(copied.encoder_name, "copy");
    assert_eq!(copied.fallback, FallbackLevel::Software);

    let encoded = session_pipeline(false, nvenc_pipeline());
    assert_eq!(encoded.decode, Some(HwType::Cuda));
    assert_eq!(encoded.encode, Some(HwType::Cuda));
    assert_eq!(encoded.filter, FilterBackend::Native);
    assert_eq!(encoded.encoder_name, "hevc_nvenc");
    assert_eq!(encoded.fallback, FallbackLevel::FullHw);
}

#[test]
fn decoder_thread_counts() {
    assert_eq!(video_decoder_threads(true), 1);
    assert_eq!(video_decoder_threads(false), 0);
    assert_eq!(audio_decoder_threads(), 0);
}

#[test]
fn audio_thread_decisions() {
    let mut c = PrerollCounter::new();
    assert!(!c.on_frame(10, 100));
    assert!(!c.on_frame(i64::MIN, 100));
    assert!(c.on_frame(100, 100));
    assert!(c.on_frame(10, 0));
    assert_eq!(c.skipped, 2);
    assert!(audio_continues(false));
    assert!(!audio_continues(true));
    assert_eq!(
        audio_finish(true, true, 5),
        AudioFinish { flush_decoder: false, flush_filter: false, flush_encoder: false, report_preroll: false }
    );
    assert_eq!(
        audio_finish(false, true, 5),
        AudioFinish { flush_decoder: true, flush_filter: true, flush_encoder: true, report_preroll: true }
    );
    assert_eq!(
        audio_finish(false, false, 0),
        AudioFinish { flush_decoder: true, flush_filter: true, flush_encoder: false, report_preroll: false }
    );
}
