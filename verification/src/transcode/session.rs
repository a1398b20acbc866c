//! Decisions of a transcode session: what the input is opened with, which
//! hardware devices are set up and how, what video encoder a pass uses, and
//! how a seek-restarted pass is set up and reported.

use vstd::prelude::*;
use crate::text::str_eq;
use crate::transcode::types::{HlsOptions, NOPTS_VALUE};

verus! {

/// Hardware acceleration backends.
#[derive(Clone, Copy, Debug, PartialEq, Eq, Structural)]
pub enum HwType {
    Cuda,
    Vaapi,
    Qsv,
    Videotoolbox,
    Amf,
    Rkmpp,
    V4l2m2m,
}

/// Where video filtering runs.
#[derive(Clone, Copy, Debug, PartialEq, Eq, Structural)]
pub enum FilterBackend {
    /// On the decode/encode device itself.
    Native,
    /// Through OpenCL, bridging two devices.
    OpenCL,
    /// Through Vulkan, bridging two devices.
    Vulkan,
    /// On the CPU.
    Software,
}

/// Which level of the hardware fallback chain a pipeline stands at.
#[derive(Clone, Copy, Debug, PartialEq, Eq, Structural)]
pub enum FallbackLevel {
    /// Decode, filter and encode on one device.
    FullHw,
    /// Mapping between different devices.
    CrossDevice,
    /// Software decode, hardware encode.
    MixedSwDecode,
    /// Hardware decode, download, software or hardware encode.
    MixedHwDownload,
    /// CPU only.
    Software,
}

/// A resolved decode / filter / encode pipeline.
#[derive(Debug)]
pub struct HwPipeline {
    /// Decode device; none for software decoding.
    pub decode: Option<HwType>,
    pub filter: FilterBackend,
    /// Encode device; none for software encoding.
    pub encode: Option<HwType>,
    /// Encoder name, e.g. "hevc_nvenc".
    pub encoder_name: String,
    pub fallback: FallbackLevel,
}

/// The pipeline of a session that copies video: no devices, software
/// filtering, the `copy` encoder, software fallback level.
pub open spec fn is_copy_pipeline(p: HwPipeline) -> bool {
    &&& p.decode is None
    &&& p.filter == FilterBackend::Software
    &&& p.encode is None
    &&& p.encoder_name@ == "copy"@
    &&& p.fallback == FallbackLevel::Software
}

/// The pipeline used when video is copied.
pub fn copy_pipeline() -> (r: HwPipeline)
    ensures
        is_copy_pipeline(r),
{
    HwPipeline {
        decode: None,
        filter: FilterBackend::Software,
        encode: None,
        encoder_name: "copy".to_string(),
        fallback: FallbackLevel::Software,
    }
}

/// Probe limits for opening an input.
#[derive(Clone, Copy, Debug, PartialEq, Eq, Structural)]
pub struct ProbeLimits {
    /// Bytes read to detect the format.
    pub probesize: u64,
    /// Microseconds of input analyzed to find stream parameters.
    pub analyzeduration: u64,
}

/// How the input of a session is opened.
#[derive(Clone, Copy, Debug, PartialEq, Eq, Structural)]
pub struct SessionPlan {
    /// Video packets are copied (the video codec is `copy`).
    pub copy_video: bool,
    /// Audio packets are copied (the audio codec is `copy`).
    pub copy_audio: bool,
    /// Probe limits; none in video copy mode, where probing is left at the
    /// demuxer defaults.
    pub probe_limits: Option<ProbeLimits>,
    /// Ask the demuxer to generate missing PTS (needed when copying).
    pub generate_pts: bool,
}

/// The pipeline of a session: the copy pipeline when video is copied, else
/// the pipeline resolved for the video encoder.
pub fn session_pipeline(copy_video: bool, resolved: HwPipeline) -> (r: HwPipeline)
    ensures
        copy_video ==> is_copy_pipeline(r),
        !copy_video ==> r == resolved,
{
    if copy_video {
        copy_pipeline()
    } else {
        resolved
    }
}

/// The session plan for a video and an audio codec name.
pub open spec fn session_plan(video_codec: Seq<char>, audio_codec: Seq<char>) -> SessionPlan {
    let copy_video = video_codec == "copy"@;
    let copy_audio = audio_codec == "copy"@;
    SessionPlan {
        copy_video,
        copy_audio,
        probe_limits: if copy_video {
            None
        } else {
            Some(ProbeLimits { probesize: 1048576, analyzeduration: 1000000 })
        },
        generate_pts: copy_video || copy_audio,
    }
}

/// Plan how a session opens its input.
pub fn plan_session(video_codec: &str, audio_codec: &str) -> (r: SessionPlan)
    ensures
        r == session_plan(video_codec@, audio_codec@),
{
    let copy_video = str_eq(video_codec, "copy");
    let copy_audio = str_eq(audio_codec, "copy");
    SessionPlan {
        copy_video,
        copy_audio,
        probe_limits: if copy_video {
            None
        } else {
            Some(ProbeLimits { probesize: 1048576, analyzeduration: 1000000 })
        },
        generate_pts: copy_video || copy_audio,
    }
}

/// Where a hardware device context comes from.
#[derive(Clone, Copy, Debug, PartialEq, Eq, Structural)]
pub enum DeviceSource {
    /// Reuse the device context cached from an earlier session.
    Cached(HwType),
    /// Create a new device context; failing that, the session fails.
    Create(HwType),
    /// Share the decoder's device context.
    SharedWithDecoder(HwType),
}

/// Device sources for the decoder and the encoder of a session.
#[derive(Clone, Copy, Debug, PartialEq, Eq, Structural)]
pub struct DevicePlan {
    pub decode: Option<DeviceSource>,
    pub encode: Option<DeviceSource>,
}

/// The device plan: a decode device is reused from the cache when one is
/// cached, else created; an encode device on the same backend as the decode
/// device shares it; another encode device is reused from the cache or
/// created.
pub open spec fn device_plan(decode: Option<HwType>, encode: Option<HwType>, has_cached: bool) -> DevicePlan {
    DevicePlan {
        decode: match decode {
            Some(d) => Some(if has_cached { DeviceSource::Cached(d) } else { DeviceSource::Create(d) }),
            None => None,
        },
        encode: match encode {
            Some(e) => Some(
                if decode == Some(e) {
                    DeviceSource::SharedWithDecoder(e)
                } else if has_cached {
                    DeviceSource::Cached(e)
                } else {
                    DeviceSource::Create(e)
                },
            ),
            None => None,
        },
    }
}

/// Plan where the decode and encode devices of a session come from.
pub fn plan_devices(decode: Option<HwType>, encode: Option<HwType>, has_cached: bool) -> (r: DevicePlan)
    ensures
        r == device_plan(decode, encode, has_cached),
{
    let d = match decode {
        Some(d) => Some(if has_cached { DeviceSource::Cached(d) } else { DeviceSource::Create(d) }),
        None => None,
    };
    let e = match encode {
        Some(e) => {
            let same = match decode {
                Some(d) => d == e,
                None => false,
            };
            Some(
                if same {
                    DeviceSource::SharedWithDecoder(e)
                } else if has_cached {
                    DeviceSource::Cached(e)
                } else {
                    DeviceSource::Create(e)
                },
            )
        },
        None => None,
    };
    DevicePlan { decode: d, encode: e }
}

/// The video encoder a pass uses: none when copying video; a hardware
/// encoder without an encode device falls back to its software encoder;
/// otherwise the requested encoder.
pub open spec fn pass_video_codec(
    video_codec: Seq<char>,
    is_hw_encoder: bool,
    has_encode_device: bool,
    software_fallback: Seq<char>,
) -> Option<Seq<char>> {
    if video_codec == "copy"@ {
        None
    } else if is_hw_encoder && !has_encode_device {
        Some(software_fallback)
    } else {
        Some(video_codec)
    }
}

/// Choose the video encoder of a pass. `is_hw_encoder` says whether
/// `video_codec` names a hardware encoder, `software_fallback` is the
/// software encoder that stands in for it.
pub fn pass_video_codec_name(
    video_codec: &str,
    is_hw_encoder: bool,
    has_encode_device: bool,
    software_fallback: &str,
) -> (r: Option<String>)
    ensures
        match r {
            Some(s) => pass_video_codec(video_codec@, is_hw_encoder, has_encode_device, software_fallback@)
                == Some(s@),
            None => pass_video_codec(video_codec@, is_hw_encoder, has_encode_device, software_fallback@)
                is None,
        },
{
    if str_eq(video_codec, "copy") {
        None
    } else if is_hw_encoder && !has_encode_device {
        Some(software_fallback.to_string())
    } else {
        Some(video_codec.to_string())
    }
}

/// The input's start time, with an unset start time read as 0.
pub fn format_start_time(start_time: i64) -> (r: i64)
    ensures
        r == if start_time == NOPTS_VALUE { 0 } else { start_time },
{
    if start_time == NOPTS_VALUE {
        0
    } else {
        start_time
    }
}

/// How a finished pass is reported.
#[derive(Clone, Copy, Debug, PartialEq, Eq, Structural)]
pub enum PassOutcome {
    /// Report the pass: `completed` is true when it ran to its end, false
    /// when it was cancelled.
    Finished { completed: bool },
    /// The pass failed without being cancelled: the session ends with its
    /// error.
    Failed,
}

/// The outcome of a seek-restarted pass from whether it returned without
/// error and whether its cancellation token was set: a cancelled pass counts
/// as not completed, whether or not it returned an error.
pub fn seek_pass_outcome(pass_ok: bool, cancelled: bool) -> (r: PassOutcome)
    ensures
        r == if pass_ok {
            PassOutcome::Finished { completed: !cancelled }
        } else if cancelled {
            PassOutcome::Finished { completed: false }
        } else {
            PassOutcome::Failed
        },
{
    if pass_ok {
        PassOutcome::Finished { completed: !cancelled }
    } else if cancelled {
        PassOutcome::Finished { completed: false }
    } else {
        PassOutcome::Failed
    }
}

/// The outcome of the first pass of a session: reported as completed unless
/// its cancellation token was set; an error ends the session even when the
/// pass was cancelled.
pub fn initial_pass_outcome(pass_ok: bool, cancelled: bool) -> (r: PassOutcome)
    ensures
        r == if pass_ok { PassOutcome::Finished { completed: !cancelled } } else { PassOutcome::Failed },
{
    if pass_ok {
        PassOutcome::Finished { completed: !cancelled }
    } else {
        PassOutcome::Failed
    }
}

/// The HLS configuration of a seek-restarted pass: the session's, starting
/// at the requested segment.
pub fn seek_pass_hls(hls: &Option<HlsOptions>, start_segment: u32) -> (r: Option<HlsOptions>)
    ensures
        r == match *hls {
            Some(h) => Some(HlsOptions { start_number: start_segment, ..h }),
            None => None,
        },
{
    match hls {
        Some(h) => Some(h.restarted_at(start_segment)),
        None => None,
    }
}

/// A re-encoded video stream stays on the GPU from decoder to encoder when
/// there is a decode device and the encode device runs the chosen encoder.
/// `encoder_on_encode_device` is none when there is no encode device, else
/// whether that device's hardware encoder is the chosen one.
pub fn gpu_pipeline(has_decode_device: bool, encoder_on_encode_device: Option<bool>) -> (r: bool)
    ensures
        r == (has_decode_device && encoder_on_encode_device == Some(true)),
{
    has_decode_device && match encoder_on_encode_device {
        Some(b) => b,
        None => false,
    }
}

/// Decoder threads of the video decoder of a pass: one with a hardware
/// decoder (the GPU handles its own parallelism), else 0 (FFmpeg chooses).
pub fn video_decoder_threads(hw_decode: bool) -> (r: i32)
    ensures
        r == if hw_decode { 1i32 } else { 0i32 },
{
    if hw_decode {
        1
    } else {
        0
    }
}

/// Decoder threads of the audio decoder of a pass: 0 (FFmpeg chooses).
pub fn audio_decoder_threads() -> (r: i32)
    ensures
        r == 0,
{
    0
}

// ── Laws ────────────────────────────────────────────────────────────────────

/// A session that copies video opens no device, generates missing PTS, and
/// leaves probing at the demuxer defaults.
pub proof fn lemma_copy_session_has_no_devices(p: HwPipeline, audio_codec: Seq<char>, has_cached: bool)
    requires
        is_copy_pipeline(p),
    ensures
        device_plan(p.decode, p.encode, has_cached) == (DevicePlan { decode: None, encode: None }),
        session_plan("copy"@, audio_codec).generate_pts,
        session_plan("copy"@, audio_codec).probe_limits is None,
{
}

/// The encoder shares the decoder's device exactly when both run on the same
/// backend. An encode device on another backend is taken from the cache
/// when a device is cached and created otherwise, as is the decode device.
/// A side without a device gets no device source.
pub proof fn lemma_device_sharing(decode: Option<HwType>, encode: Option<HwType>, has_cached: bool)
    ensures
        ({
            let plan = device_plan(decode, encode, has_cached);
            &&& forall|e: HwType|
                plan.encode == Some(DeviceSource::SharedWithDecoder(e)) <==> (encode == Some(e) && decode == Some(e))
            &&& forall|e: HwType|
                encode == Some(e) && decode != Some(e) && has_cached ==> plan.encode == Some(DeviceSource::Cached(e))
            &&& forall|e: HwType|
                encode == Some(e) && decode != Some(e) && !has_cached ==> plan.encode == Some(DeviceSource::Create(e))
            &&& forall|d: HwType|
                decode == Some(d) && has_cached ==> plan.decode == Some(DeviceSource::Cached(d))
            &&& forall|d: HwType|
                decode == Some(d) && !has_cached ==> plan.decode == Some(DeviceSource::Create(d))
            &&& (encode is None <==> plan.encode is None)
            &&& (decode is None <==> plan.decode is None)
        }),
{
}

} // verus!
