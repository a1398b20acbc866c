//! Decisions of one-shot screenshot capture: which hardware decoders to try,
//! when to retry in software, which decoded frames to skip, how the source
//! pixel format is read, and the output size.

use vstd::prelude::*;
use crate::transcode::pass::analyze::StreamInfo;
use crate::transcode::session::HwType;
use crate::transcode::types::MediaKind;
use crate::transcode::types::NOPTS_VALUE;

verus! {

// ── Video stream selection ─────────────────────────────────────────────────

/// A stream a screenshot can be taken from: a video stream that is no
/// attached picture.
pub open spec fn is_screenshot_stream(s: StreamInfo) -> bool {
    s.kind == MediaKind::Video && !s.attached_pic
}

/// Index of the first stream a screenshot can be taken from, if any.
pub fn find_video_stream(streams: &Vec<StreamInfo>) -> (r: Option<usize>)
    ensures
        match r {
            Some(i) => i < streams.len() && is_screenshot_stream(streams@[i as int])
                && forall|j: int| 0 <= j < i ==> !is_screenshot_stream(#[trigger] streams@[j]),
            None => forall|j: int| 0 <= j < streams.len() ==> !is_screenshot_stream(#[trigger] streams@[j]),
        },
{
    let mut i: usize = 0;
    while i < streams.len()
        invariant
            i <= streams.len(),
            forall|j: int| 0 <= j < i ==> !is_screenshot_stream(#[trigger] streams@[j]),
        decreases streams.len() - i,
    {
        let s = streams[i];
        if s.kind == MediaKind::Video && !s.attached_pic {
            return Some(i);
        }
        i = i + 1;
    }
    None
}

// ── Hardware decoder candidates ────────────────────────────────────────────

/// Hardware decoders in the order they are tried: CUDA, VAAPI, QSV,
/// VideoToolbox, AMF, each only when it supports the codec.
pub open spec fn decoder_candidates(cuda: bool, vaapi: bool, qsv: bool, videotoolbox: bool, amf: bool) -> Seq<HwType> {
    let s0 = Seq::<HwType>::empty();
    let s1 = if cuda { s0.push(HwType::Cuda) } else { s0 };
    let s2 = if vaapi { s1.push(HwType::Vaapi) } else { s1 };
    let s3 = if qsv { s2.push(HwType::Qsv) } else { s2 };
    let s4 = if videotoolbox { s3.push(HwType::Videotoolbox) } else { s3 };
    if amf { s4.push(HwType::Amf) } else { s4 }
}

/// The hardware decoders to try for a codec, in order of preference, from
/// whether each backend can decode it. The first one whose device can be
/// created is used.
pub fn hw_decoder_candidates(cuda: bool, vaapi: bool, qsv: bool, videotoolbox: bool, amf: bool) -> (r: Vec<HwType>)
    ensures
        r@ == decoder_candidates(cuda, vaapi, qsv, videotoolbox, amf),
{
    let mut r: Vec<HwType> = Vec::new();
    if cuda {
        r.push(HwType::Cuda);
    }
    if vaapi {
        r.push(HwType::Vaapi);
    }
    if qsv {
        r.push(HwType::Qsv);
    }
    if videotoolbox {
        r.push(HwType::Videotoolbox);
    }
    if amf {
        r.push(HwType::Amf);
    }
    r
}

/// Per-backend flags, in the order CUDA, VAAPI, QSV, VideoToolbox, AMF.
#[derive(Clone, Copy, Debug, PartialEq, Eq, Structural)]
pub struct BackendFlags {
    pub cuda: bool,
    pub vaapi: bool,
    pub qsv: bool,
    pub videotoolbox: bool,
    pub amf: bool,
}

/// The first backend, in the order CUDA, VAAPI, QSV, VideoToolbox, AMF, that
/// can decode the codec and whose device can be created; none if there is
/// none.
pub open spec fn chosen_decoder(supported: BackendFlags, device_ok: BackendFlags) -> Option<HwType> {
    if supported.cuda && device_ok.cuda {
        Some(HwType::Cuda)
    } else if supported.vaapi && device_ok.vaapi {
        Some(HwType::Vaapi)
    } else if supported.qsv && device_ok.qsv {
        Some(HwType::Qsv)
    } else if supported.videotoolbox && device_ok.videotoolbox {
        Some(HwType::Videotoolbox)
    } else if supported.amf && device_ok.amf {
        Some(HwType::Amf)
    } else {
        None
    }
}

/// Choose the hardware decoder for a screenshot: the first backend in
/// preference order that supports the codec and has a device. A device flag
/// is only read for a supported backend not preceded by a chosen one.
pub fn select_hw_decoder(supported: BackendFlags, device_ok: BackendFlags) -> (r: Option<HwType>)
    ensures
        r == chosen_decoder(supported, device_ok),
{
    if supported.cuda && device_ok.cuda {
        Some(HwType::Cuda)
    } else if supported.vaapi && device_ok.vaapi {
        Some(HwType::Vaapi)
    } else if supported.qsv && device_ok.qsv {
        Some(HwType::Qsv)
    } else if supported.videotoolbox && device_ok.videotoolbox {
        Some(HwType::Videotoolbox)
    } else if supported.amf && device_ok.amf {
        Some(HwType::Amf)
    } else {
        None
    }
}

/// The chosen decoder is a candidate, and no candidate before it in
/// preference order has a device.
pub proof fn lemma_chosen_decoder_is_first_candidate(supported: BackendFlags, device_ok: BackendFlags)
    ensures
        ({
            let c = decoder_candidates(
                supported.cuda,
                supported.vaapi,
                supported.qsv,
                supported.videotoolbox,
                supported.amf,
            );
            match chosen_decoder(supported, device_ok) {
                Some(t) => exists|i: int|
                    0 <= i < c.len() && c[i] == t && device_available(device_ok, t) && forall|k: int|
                        0 <= k < i ==> !device_available(device_ok, #[trigger] c[k]),
                None => forall|k: int| 0 <= k < c.len() ==> !device_available(device_ok, #[trigger] c[k]),
            }
        }),
{
    let c = decoder_candidates(supported.cuda, supported.vaapi, supported.qsv, supported.videotoolbox, supported.amf);
    let s0 = Seq::<HwType>::empty();
    let s1 = if supported.cuda { s0.push(HwType::Cuda) } else { s0 };
    let s2 = if supported.vaapi { s1.push(HwType::Vaapi) } else { s1 };
    let s3 = if supported.qsv { s2.push(HwType::Qsv) } else { s2 };
    let s4 = if supported.videotoolbox { s3.push(HwType::Videotoolbox) } else { s3 };
    let s5 = if supported.amf { s4.push(HwType::Amf) } else { s4 };
    assert(c == s5);
    assert forall|k: int| 0 <= k < s1.len() implies #[trigger] s1[k] == HwType::Cuda by {}
    assert forall|k: int| 0 <= k < s2.len() implies (#[trigger] s2[k] == HwType::Cuda || s2[k] == HwType::Vaapi)
        && (s2[k] == HwType::Cuda ==> k < s1.len()) by {
        if k < s1.len() { assert(s2[k] == s1[k]); }
    }
    assert forall|k: int| 0 <= k < s3.len() implies (#[trigger] s3[k] == HwType::Cuda || s3[k] == HwType::Vaapi || s3[k] == HwType::Qsv)
        && (s3[k] == HwType::Cuda || s3[k] == HwType::Vaapi ==> k < s2.len()) && (k < s2.len() ==> s3[k] == s2[k]) by {
        if k < s2.len() { assert(s3[k] == s2[k]); }
    }
    assert forall|k: int| 0 <= k < s4.len() implies (#[trigger] s4[k] == HwType::Cuda || s4[k] == HwType::Vaapi || s4[k] == HwType::Qsv || s4[k] == HwType::Videotoolbox)
        && (s4[k] != HwType::Videotoolbox ==> k < s3.len()) && (k < s3.len() ==> s4[k] == s3[k]) by {
        if k < s3.len() { assert(s4[k] == s3[k]); }
    }
    assert forall|k: int| 0 <= k < s5.len() implies (#[trigger] s5[k] == HwType::Cuda || s5[k] == HwType::Vaapi || s5[k] == HwType::Qsv || s5[k] == HwType::Videotoolbox || s5[k] == HwType::Amf)
        && (s5[k] != HwType::Amf ==> k < s4.len()) && (k < s4.len() ==> s5[k] == s4[k]) by {
        if k < s4.len() { assert(s5[k] == s4[k]); }
    }
    match chosen_decoder(supported, device_ok) {
        Some(t) => {
            if t == HwType::Cuda {
                assert(c[0] == t);
            } else if t == HwType::Vaapi {
                assert(c[s1.len() as int] == t);
            } else if t == HwType::Qsv {
                assert(c[s2.len() as int] == t);
            } else if t == HwType::Videotoolbox {
                assert(c[s3.len() as int] == t);
            } else {
                assert(c[s4.len() as int] == t);
            }
        },
        None => {},
    }
}

/// Whether the device of a backend can be created.
pub open spec fn device_available(device_ok: BackendFlags, t: HwType) -> bool {
    match t {
        HwType::Cuda => device_ok.cuda,
        HwType::Vaapi => device_ok.vaapi,
        HwType::Qsv => device_ok.qsv,
        HwType::Videotoolbox => device_ok.videotoolbox,
        HwType::Amf => device_ok.amf,
        _ => false,
    }
}

// ── Decoder setup ───────────────────────────────────────────────────────────

/// How the screenshot decoder is looked up.
#[derive(Debug)]
pub enum DecoderLookup {
    /// By this decoder name, falling back to the codec's default decoder.
    ByNameThenCodec(String),
    /// The codec's default decoder.
    ByCodec,
}

/// The decoder lookup for a screenshot: with CUDA decoding and a CUVID
/// decoder for the codec, that decoder by name (else the codec's default);
/// otherwise the codec's default decoder.
pub fn screenshot_decoder_lookup(hw: Option<HwType>, cuvid_decoder: Option<&str>) -> (r: DecoderLookup)
    ensures
        match r {
            DecoderLookup::ByNameThenCodec(n) => hw == Some(HwType::Cuda) && cuvid_decoder is Some
                && n@ == cuvid_decoder->0@,
            DecoderLookup::ByCodec => hw != Some(HwType::Cuda) || cuvid_decoder is None,
        },
{
    match (hw, cuvid_decoder) {
        (Some(HwType::Cuda), Some(name)) => DecoderLookup::ByNameThenCodec(name.to_string()),
        _ => DecoderLookup::ByCodec,
    }
}

/// Decoder threads for a screenshot: one with hardware decoding, else two.
pub fn screenshot_decoder_threads(hw_decode: bool) -> (r: i32)
    ensures
        r == if hw_decode { 1i32 } else { 2i32 },
{
    if hw_decode {
        1
    } else {
        2
    }
}

// ── Software fallback ───────────────────────────────────────────────────────

/// What follows the first capture attempt.
#[derive(Clone, Copy, Debug, PartialEq, Eq, Structural)]
pub enum FallbackStep {
    /// Return the first attempt's result.
    Return,
    /// Retry once with software decoding.
    RetrySoftware,
}

/// After the first attempt: a failed attempt that used hardware decoding is
/// retried in software; any other result is returned as it is.
pub fn after_first_capture(succeeded: bool, used_hw: bool) -> (r: FallbackStep)
    ensures
        r == if !succeeded && used_hw { FallbackStep::RetrySoftware } else { FallbackStep::Return },
{
    if !succeeded && used_hw {
        FallbackStep::RetrySoftware
    } else {
        FallbackStep::Return
    }
}

/// The error reported when both the hardware attempt and the software retry
/// failed.
pub fn fallback_error_message(hw_err: &str, sw_err: &str) -> (r: String)
    ensures
        r@ == "hardware screenshot failed: "@ + hw_err@ + "; software fallback failed: "@ + sw_err@,
{
    let mut s = "hardware screenshot failed: ".to_string();
    s.append(hw_err);
    s.append("; software fallback failed: ");
    s.append(sw_err);
    s
}

// ── Frame selection ─────────────────────────────────────────────────────────

/// Skip a decoded video frame that lies before the seek point: only when
/// seeking (`seek_pts > 0`) and the frame has a timestamp before it.
pub fn should_skip_frame(best_effort_timestamp: i64, seek_pts: i64) -> (r: bool)
    ensures
        r == (seek_pts > 0 && best_effort_timestamp != NOPTS_VALUE && best_effort_timestamp < seek_pts),
{
    seek_pts > 0 && best_effort_timestamp != NOPTS_VALUE && best_effort_timestamp < seek_pts
}

// ── Decoding the frame at the seek point ────────────────────────────────────

/// Phase of the search for the first frame at or after the seek point.
#[derive(Clone, Copy, Debug, PartialEq, Eq, Structural)]
pub enum DecodePhase {
    /// Reading packets from the input.
    Reading,
    /// The input ended and the decoder is being drained.
    Draining,
}

/// What the decoder loop observed.
#[derive(Clone, Copy, Debug, PartialEq, Eq, Structural)]
pub enum DecodeEvent {
    /// A packet was read, of this stream.
    Packet { stream_index: i32 },
    /// The input has no more packets.
    EndOfInput,
    /// Reading a packet failed.
    ReadFailed,
    /// The decoder gave a frame with this best-effort timestamp.
    Frame { best_effort_timestamp: i64 },
    /// The decoder needs more input, or is fully drained.
    DecoderEmpty,
    /// The decoder failed.
    DecodeFailed,
}

/// Why the search failed.
#[derive(Clone, Copy, Debug, PartialEq, Eq, Structural)]
pub enum DecodeFailure {
    /// Reading a packet failed.
    Read,
    /// Decoding failed while reading packets.
    Decode,
    /// Decoding failed while draining the decoder.
    Flush,
    /// The input ended without a frame at or after the seek point.
    NotFound,
}

/// What the decoder loop does next.
#[derive(Clone, Copy, Debug, PartialEq, Eq, Structural)]
pub enum DecodeAction {
    /// Read the next packet.
    ReadPacket,
    /// Send the packet to the decoder, then take a frame.
    SendPacket,
    /// Take the next frame from the decoder.
    ReceiveFrame,
    /// Signal the end of input to the decoder, then take a frame.
    Flush,
    /// The last frame is the result.
    ReturnFrame,
    /// Give up.
    Fail(DecodeFailure),
}

/// The next phase and action of the search for the first frame of stream
/// `stream_idx` at or after `seek_pts`: packets of other streams are passed
/// over; frames before the seek point are skipped; a frame at or after it
/// ends the search; at the end of input the decoder is drained the same way;
/// read and decode errors end the search. An event that cannot arise in the
/// draining phase ends it as not found.
pub open spec fn decode_step_spec(
    phase: DecodePhase,
    stream_idx: usize,
    seek_pts: i64,
    event: DecodeEvent,
) -> (DecodePhase, DecodeAction) {
    let skip = |ts: i64| seek_pts > 0 && ts != NOPTS_VALUE && ts < seek_pts;
    match (phase, event) {
        (DecodePhase::Reading, DecodeEvent::Packet { stream_index }) => (
            DecodePhase::Reading,
            if stream_index as usize != stream_idx { DecodeAction::ReadPacket } else { DecodeAction::SendPacket },
        ),
        (DecodePhase::Reading, DecodeEvent::EndOfInput) => (DecodePhase::Draining, DecodeAction::Flush),
        (DecodePhase::Reading, DecodeEvent::ReadFailed) => (
            DecodePhase::Reading,
            DecodeAction::Fail(DecodeFailure::Read),
        ),
        (DecodePhase::Reading, DecodeEvent::DecoderEmpty) => (DecodePhase::Reading, DecodeAction::ReadPacket),
        (DecodePhase::Reading, DecodeEvent::DecodeFailed) => (
            DecodePhase::Reading,
            DecodeAction::Fail(DecodeFailure::Decode),
        ),
        (p, DecodeEvent::Frame { best_effort_timestamp }) => (
            p,
            if skip(best_effort_timestamp) { DecodeAction::ReceiveFrame } else { DecodeAction::ReturnFrame },
        ),
        (DecodePhase::Draining, DecodeEvent::DecodeFailed) => (
            DecodePhase::Draining,
            DecodeAction::Fail(DecodeFailure::Flush),
        ),
        (DecodePhase::Draining, _) => (DecodePhase::Draining, DecodeAction::Fail(DecodeFailure::NotFound)),
    }
}

/// One step of the search for the frame to capture (see `decode_step_spec`).
pub fn decode_step(phase: DecodePhase, stream_idx: usize, seek_pts: i64, event: DecodeEvent) -> (r: (
    DecodePhase,
    DecodeAction,
))
    ensures
        r == decode_step_spec(phase, stream_idx, seek_pts, event),
{
    match event {
        DecodeEvent::Frame { best_effort_timestamp } => (
            phase,
            if should_skip_frame(best_effort_timestamp, seek_pts) {
                DecodeAction::ReceiveFrame
            } else {
                DecodeAction::ReturnFrame
            },
        ),
        DecodeEvent::Packet { stream_index } => match phase {
            DecodePhase::Reading => (
                DecodePhase::Reading,
                if #[verifier::truncate] (stream_index as usize) != stream_idx {
                    DecodeAction::ReadPacket
                } else {
                    DecodeAction::SendPacket
                },
            ),
            DecodePhase::Draining => (DecodePhase::Draining, DecodeAction::Fail(DecodeFailure::NotFound)),
        },
        DecodeEvent::EndOfInput => match phase {
            DecodePhase::Reading => (DecodePhase::Draining, DecodeAction::Flush),
            DecodePhase::Draining => (DecodePhase::Draining, DecodeAction::Fail(DecodeFailure::NotFound)),
        },
        DecodeEvent::ReadFailed => match phase {
            DecodePhase::Reading => (DecodePhase::Reading, DecodeAction::Fail(DecodeFailure::Read)),
            DecodePhase::Draining => (DecodePhase::Draining, DecodeAction::Fail(DecodeFailure::NotFound)),
        },
        DecodeEvent::DecoderEmpty => match phase {
            DecodePhase::Reading => (DecodePhase::Reading, DecodeAction::ReadPacket),
            DecodePhase::Draining => (DecodePhase::Draining, DecodeAction::Fail(DecodeFailure::NotFound)),
        },
        DecodeEvent::DecodeFailed => match phase {
            DecodePhase::Reading => (DecodePhase::Reading, DecodeAction::Fail(DecodeFailure::Decode)),
            DecodePhase::Draining => (DecodePhase::Draining, DecodeAction::Fail(DecodeFailure::Flush)),
        },
    }
}

/// A frame is returned only at or after the seek point (or when it has no
/// timestamp, or when not seeking), and only after a frame event.
pub proof fn lemma_returned_frame_not_before_seek(
    phase: DecodePhase,
    stream_idx: usize,
    seek_pts: i64,
    event: DecodeEvent,
)
    requires
        decode_step_spec(phase, stream_idx, seek_pts, event).1 == DecodeAction::ReturnFrame,
    ensures
        event matches DecodeEvent::Frame { best_effort_timestamp } && !(seek_pts > 0 && best_effort_timestamp
            != NOPTS_VALUE && best_effort_timestamp < seek_pts),
{
}

// ── Pixel formats ───────────────────────────────────────────────────────────

/// Source pixel formats, as far as the scaler setup reads them.
#[derive(Clone, Copy, Debug, PartialEq, Eq, Structural)]
pub enum PixelFormat {
    Yuv420p,
    Yuv422p,
    Yuv444p,
    Yuv440p,
    /// The deprecated full-range ("JPEG") variants.
    Yuvj420p,
    Yuvj422p,
    Yuvj444p,
    Yuvj440p,
    /// Any other format, by its FFmpeg number.
    Other(i32),
}

/// Color range of the source.
#[derive(Clone, Copy, Debug, PartialEq, Eq, Structural)]
pub enum ColorRange {
    /// Limited ("TV", MPEG) range.
    Mpeg,
    /// Full ("PC", JPEG) range.
    Jpeg,
}

/// Map the deprecated full-range YUVJ formats to their YUV equivalents with
/// full color range; every other format keeps its format, limited range.
pub fn normalize_pix_fmt(fmt: PixelFormat) -> (r: (PixelFormat, ColorRange))
    ensures
        r == match fmt {
            PixelFormat::Yuvj420p => (PixelFormat::Yuv420p, ColorRange::Jpeg),
            PixelFormat::Yuvj422p => (PixelFormat::Yuv422p, ColorRange::Jpeg),
            PixelFormat::Yuvj444p => (PixelFormat::Yuv444p, ColorRange::Jpeg),
            PixelFormat::Yuvj440p => (PixelFormat::Yuv440p, ColorRange::Jpeg),
            other => (other, ColorRange::Mpeg),
        },
{
    match fmt {
        PixelFormat::Yuvj420p => (PixelFormat::Yuv420p, ColorRange::Jpeg),
        PixelFormat::Yuvj422p => (PixelFormat::Yuv422p, ColorRange::Jpeg),
        PixelFormat::Yuvj444p => (PixelFormat::Yuv444p, ColorRange::Jpeg),
        PixelFormat::Yuvj440p => (PixelFormat::Yuv440p, ColorRange::Jpeg),
        other => (other, ColorRange::Mpeg),
    }
}

// ── Output size ─────────────────────────────────────────────────────────────

/// Division rounding toward zero.
pub open spec fn div_toward_zero(a: int, b: int) -> int {
    let q = (if a < 0 { -a } else { a }) / (if b < 0 { -b } else { b });
    if (a < 0) != (b < 0) {
        -q
    } else {
        q
    }
}

/// The largest even number not above `x`.
pub open spec fn even_floor(x: int) -> int {
    x - x % 2
}

/// The other side of the output for one given side: the source side scaled
/// by `given / given_src`, rounded to nearest, at least 1; the source side
/// itself when `given_src` is not positive.
pub open spec fn scaled_side(other_src: i32, given_src: i32, given: i32) -> int {
    if given_src > 0 {
        let s = div_toward_zero(other_src * given + given_src / 2, given_src as int);
        if s >= 1 { s } else { 1 }
    } else {
        other_src as int
    }
}

pub open spec fn fits_i32(x: int) -> bool {
    i32::MIN <= x <= i32::MAX
}

/// The scaling arithmetic stays within `i32`.
pub open spec fn scale_dims_in_range(src_w: i32, src_h: i32, target_width: Option<u32>, target_height: Option<u32>) -> bool {
    match (target_width, target_height) {
        (Some(w), None) => {
            &&& (src_w > 0 ==> fits_i32(src_h * (w as i32)) && fits_i32(src_h * (w as i32) + src_w / 2))
            &&& scaled_side(src_h, src_w, w as i32) < i32::MAX
        },
        (None, Some(h)) => {
            &&& (src_h > 0 ==> fits_i32(src_w * (h as i32)) && fits_i32(src_w * (h as i32) + src_h / 2))
            &&& scaled_side(src_w, src_h, h as i32) < i32::MAX
        },
        _ => true,
    }
}

/// Output size: both sides given are taken as they are; one side given keeps
/// the aspect ratio for the other, rounded up to an even number; no side
/// given keeps the source size.
pub open spec fn scale_dims(src_w: i32, src_h: i32, target_width: Option<u32>, target_height: Option<u32>) -> (int, int) {
    match (target_width, target_height) {
        (Some(w), Some(h)) => ((w as i32) as int, (h as i32) as int),
        (Some(w), None) => ((w as i32) as int, even_floor(scaled_side(src_h, src_w, w as i32) + 1)),
        (None, Some(h)) => (even_floor(scaled_side(src_w, src_h, h as i32) + 1), (h as i32) as int),
        (None, None) => (src_w as int, src_h as int),
    }
}

/// `a / b` rounded toward zero, for `b > 0`.
fn div_toward_zero_i32(a: i32, b: i32) -> (q: i32)
    requires
        b > 0,
    ensures
        q == div_toward_zero(a as int, b as int),
{
    let wide = a as i64;
    let q: i64 = if wide < 0 {
        -((-wide) / (b as i64))
    } else {
        wide / (b as i64)
    };
    assert(i32::MIN <= q <= i32::MAX) by (nonlinear_arith)
        requires
            q == div_toward_zero(a as int, b as int),
            b > 0,
            i32::MIN <= a <= i32::MAX,
    {
        let m = if a < 0 { -a } else { a as int };
        assert(m / (b as int) <= m) by {
            vstd::arithmetic::div_mod::lemma_div_is_ordered_by_denominator(m, 1, b as int);
        }
    }
    q as i32
}

/// The other side for one given side (see `scaled_side`).
fn scaled_side_exec(other_src: i32, given_src: i32, given: i32) -> (r: i32)
    requires
        given_src > 0 ==> fits_i32(other_src * given) && fits_i32(other_src * given + given_src / 2),
    ensures
        r == scaled_side(other_src, given_src, given),
{
    if given_src > 0 {
        let s = div_toward_zero_i32(other_src * given + given_src / 2, given_src);
        if s >= 1 { s } else { 1 }
    } else {
        other_src
    }
}

/// Round up to an even number: `(x + 1) & !1`.
fn round_up_even(x: i32) -> (r: i32)
    requires
        x < i32::MAX,
    ensures
        r == even_floor(x + 1),
{
    let y = x + 1;
    let r = y & !1i32;
    assert((y & !1i32) as int == y - (y as int) % 2) by (bit_vector);
    r
}

/// Compute the output size of a screenshot from the source size and the
/// requested width and height.
pub fn compute_scale_dims(src_w: i32, src_h: i32, target_width: Option<u32>, target_height: Option<u32>) -> (r: (i32, i32))
    requires
        scale_dims_in_range(src_w, src_h, target_width, target_height),
    ensures
        (r.0 as int, r.1 as int) == scale_dims(src_w, src_h, target_width, target_height),
{
    match (target_width, target_height) {
        (Some(w), Some(h)) => (#[verifier::truncate] (w as i32), #[verifier::truncate] (h as i32)),
        (Some(w), None) => {
            let w = #[verifier::truncate] (w as i32);
            let h = scaled_side_exec(src_h, src_w, w);
            (w, round_up_even(h))
        },
        (None, Some(h)) => {
            let h = #[verifier::truncate] (h as i32);
            let w = scaled_side_exec(src_w, src_h, h);
            (round_up_even(w), h)
        },
        (None, None) => (src_w, src_h),
    }
}

/// With one side given and a positive source side to scale by, the other
/// side comes out even and at least 2.
pub proof fn lemma_scaled_side_even(other_src: i32, given_src: i32, given: i32)
    requires
        given_src > 0,
    ensures
        even_floor(scaled_side(other_src, given_src, given) + 1) % 2 == 0,
        even_floor(scaled_side(other_src, given_src, given) + 1) >= 2,
        even_floor(scaled_side(other_src, given_src, given) + 1) >= scaled_side(other_src, given_src, given),
{
}

} // verus!
