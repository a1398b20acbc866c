//! Shared encoding rules: which audio codecs browsers cannot play, audio
//! channel and bitrate selection, and video bitrate scaling.

use vstd::prelude::*;
use crate::common::codec::{normalize_audio_codec, normalize_video_codec};
use crate::text::{lowercase, ascii_lowercase, str_eq};
use vstd::utf8::is_ascii_chars;

verus! {

// ── Audio codec compatibility ───────────────────────────────────────────────

/// Audio codecs that browsers cannot play natively (canonical names).
pub open spec fn unsupported_audio_codecs() -> Seq<Seq<char>> {
    seq![
        "ac3"@, "eac3"@, "dts"@, "truehd"@, "pcm_s16le"@, "pcm_s24le"@, "pcm_s32le"@,
        "pcm_bluray"@, "pcm_dvd"@,
    ]
}

/// Is this (already normalized) audio codec name on the list of codecs that
/// browsers cannot play?
pub fn is_unsupported_audio_codec(name: &str) -> (r: bool)
    ensures
        r == unsupported_audio_codecs().contains(name@),
{
    let ghost list = unsupported_audio_codecs();
    let r = str_eq(name, "ac3") || str_eq(name, "eac3") || str_eq(name, "dts") || str_eq(
        name,
        "truehd",
    ) || str_eq(name, "pcm_s16le") || str_eq(name, "pcm_s24le") || str_eq(name, "pcm_s32le")
        || str_eq(name, "pcm_bluray") || str_eq(name, "pcm_dvd");
    proof {
        if r {
            if name@ == "ac3"@ {
                assert(list[0] == name@);
            } else if name@ == "eac3"@ {
                assert(list[1] == name@);
            } else if name@ == "dts"@ {
                assert(list[2] == name@);
            } else if name@ == "truehd"@ {
                assert(list[3] == name@);
            } else if name@ == "pcm_s16le"@ {
                assert(list[4] == name@);
            } else if name@ == "pcm_s24le"@ {
                assert(list[5] == name@);
            } else if name@ == "pcm_s32le"@ {
                assert(list[6] == name@);
            } else if name@ == "pcm_bluray"@ {
                assert(list[7] == name@);
            } else {
                assert(list[8] == name@);
            }
        } else {
            assert forall|i: int| 0 <= i < list.len() implies list[i] != name@ by {}
        }
    }
    r
}

/// Does this audio codec need transcoding for browser playback? Only the
/// codecs on the list do; every other codec passes through.
pub fn needs_audio_transcode(codec: &str) -> (r: bool)
    ensures
        r == unsupported_audio_codecs().contains(lowercase(codec@)),
        is_ascii_chars(codec@) ==> r == unsupported_audio_codecs().contains(ascii_lowercase(codec@)),
{
    let normalized = normalize_audio_codec(codec);
    is_unsupported_audio_codec(normalized.as_str())
}

// ── Audio channel / bitrate rules ───────────────────────────────────────────

/// Maximum AAC output channels (5.1).
pub const MAX_AAC_CHANNELS: u32 = 6;

/// AAC bitrate per channel (kbps).
pub const BITRATE_PER_CHANNEL: u32 = 128;

/// Maximum total AAC bitrate (kbps) for surround (six channels or more).
pub const MAX_SURROUND_BITRATE: u32 = 640;

/// Browser/HLS-compatible channel count for a source channel count:
/// 0 and 1 become mono, 2 stays stereo, 3 and 4 are downmixed to stereo,
/// 5 is upmixed to 5.1, 6 stays 5.1, 7 becomes 7.1, 8 and more pass through.
pub open spec fn output_channels(channels: u32) -> u32 {
    if channels <= 1 {
        1
    } else if channels == 2 {
        2
    } else if channels <= 4 {
        2
    } else if channels <= 6 {
        6
    } else if channels == 7 {
        8
    } else {
        channels
    }
}

/// Normalize audio channels to browser/HLS-compatible values.
pub fn normalize_output_channels(channels: u32) -> (r: u32)
    ensures
        r == output_channels(channels),
{
    match channels {
        0 | 1 => 1,
        2 => 2,
        3..=5 => {
            if channels == 5 {
                6
            } else {
                2
            }
        },
        6 => 6,
        7 => 8,
        _ => channels,
    }
}

/// The AAC output channel count: the normalized count, at most 5.1.
pub open spec fn aac_output_channels(channels: u32) -> u32 {
    if output_channels(channels) <= MAX_AAC_CHANNELS {
        output_channels(channels)
    } else {
        MAX_AAC_CHANNELS
    }
}

/// The AAC output bitrate (kbps) for an output channel count: a fixed rate
/// per channel, or the surround rate from six channels on.
pub open spec fn aac_bitrate_kbps(out_channels: u32) -> int {
    if out_channels >= 6 {
        MAX_SURROUND_BITRATE as int
    } else {
        out_channels * BITRATE_PER_CHANNEL
    }
}

/// Output audio bitrate (kbps) and channel count for a raw channel count:
/// `(bitrate_kbps, normalized_channels)`.
pub fn calculate_audio_output(channels: u32) -> (r: (u32, u32))
    ensures
        r.1 == aac_output_channels(channels),
        r.0 == aac_bitrate_kbps(r.1),
{
    let normalized = normalize_output_channels(channels);
    let out_channels = if normalized <= MAX_AAC_CHANNELS {
        normalized
    } else {
        MAX_AAC_CHANNELS
    };
    let bitrate_kbps = if out_channels >= 6 {
        MAX_SURROUND_BITRATE
    } else {
        out_channels * BITRATE_PER_CHANNEL
    };
    (bitrate_kbps, out_channels)
}

// ── Video bitrate scaling ───────────────────────────────────────────────────

/// Default output video bitrate when the source bitrate is unknown (kbps).
pub const DEFAULT_VIDEO_BITRATE_KBPS: u64 = 8000;

/// Upper bound of the output video bitrate (kbps): half of `i32::MAX`, so
/// that a buffer of twice the bitrate still fits an `i32`.
pub const MAX_VIDEO_BITRATE_KBPS: u64 = 1073741823;

/// Codec efficiency factor, in tenths, of a lower-cased codec name:
/// HEVC and VP9 0.6, AV1 0.5, everything else 1.0.
pub open spec fn codec_factor_tenths(lower: Seq<char>) -> int {
    if lower == "hevc"@ || lower == "vp9"@ {
        6
    } else if lower == "av1"@ {
        5
    } else {
        10
    }
}

/// The larger of two positive fractions `(num, den)`.
pub open spec fn max_fraction(a: (int, int), b: (int, int)) -> (int, int) {
    if a.0 * b.1 >= b.0 * a.1 {
        a
    } else {
        b
    }
}

/// The bitrate scale, as a fraction `(num, den)`, for a source bitrate and
/// the two codec factors: output factor over input factor but never below 1;
/// low bitrates boosted to at least 4 (up to 500 kbps), 3 (up to 1 Mbps),
/// 5/2 (up to 2 Mbps) or 2 (up to 3 Mbps); exactly 1 from 30 Mbps on.
pub open spec fn video_scale(source_bps: int, in_tenths: int, out_tenths: int) -> (int, int) {
    let codec_scale = if out_tenths > in_tenths {
        (out_tenths, in_tenths)
    } else {
        (1, 1)
    };
    if source_bps <= 500_000 {
        max_fraction(codec_scale, (4, 1))
    } else if source_bps <= 1_000_000 {
        max_fraction(codec_scale, (3, 1))
    } else if source_bps <= 2_000_000 {
        max_fraction(codec_scale, (5, 2))
    } else if source_bps <= 3_000_000 {
        max_fraction(codec_scale, (2, 1))
    } else if source_bps >= 30_000_000 {
        (1, 1)
    } else {
        codec_scale
    }
}

/// Output video bitrate (kbps) for an optional source bitrate (bps) and the
/// lower-cased codec names: the default when the source bitrate is unknown or
/// zero, else the scaled bitrate rounded down, in kbps rounded down, capped.
pub open spec fn output_video_bitrate_kbps(
    source_bps: Option<u64>,
    input_lower: Seq<char>,
    output_lower: Seq<char>,
) -> int {
    match source_bps {
        Some(b) if b > 0 => {
            let s = video_scale(
                b as int,
                codec_factor_tenths(input_lower),
                codec_factor_tenths(output_lower),
            );
            let kbps = (b * s.0 / s.1) / 1000;
            if kbps <= MAX_VIDEO_BITRATE_KBPS {
                kbps
            } else {
                MAX_VIDEO_BITRATE_KBPS as int
            }
        },
        _ => DEFAULT_VIDEO_BITRATE_KBPS as int,
    }
}

/// Efficiency factor, in tenths, of a lower-cased codec name.
pub fn codec_factor_tenths_of(lower: &str) -> (r: u64)
    ensures
        r == codec_factor_tenths(lower@),
{
    if str_eq(lower, "hevc") || str_eq(lower, "vp9") {
        6
    } else if str_eq(lower, "av1") {
        5
    } else {
        10
    }
}

/// Output video bitrate (kbps) for lower-cased codec names (see
/// `calculate_output_video_bitrate`).
pub fn scale_video_bitrate(source_bitrate_bps: Option<u64>, input_lower: &str, output_lower: &str) -> (r: u64)
    ensures
        r == output_video_bitrate_kbps(source_bitrate_bps, input_lower@, output_lower@),
{
    let source_bps = match source_bitrate_bps {
        Some(b) if b > 0 => b,
        _ => return DEFAULT_VIDEO_BITRATE_KBPS,
    };
    let input_tenths = codec_factor_tenths_of(input_lower);
    let output_tenths = codec_factor_tenths_of(output_lower);
    let ghost s = video_scale(source_bps as int, input_tenths as int, output_tenths as int);

    let (codec_num, codec_den): (u64, u64) = if output_tenths > input_tenths {
        (output_tenths, input_tenths)
    } else {
        (1, 1)
    };
    let (num, den): (u64, u64) = if source_bps <= 500_000 {
        if codec_num >= 4 * codec_den { (codec_num, codec_den) } else { (4, 1) }
    } else if source_bps <= 1_000_000 {
        if codec_num >= 3 * codec_den { (codec_num, codec_den) } else { (3, 1) }
    } else if source_bps <= 2_000_000 {
        if codec_num * 2 >= 5 * codec_den { (codec_num, codec_den) } else { (5, 2) }
    } else if source_bps <= 3_000_000 {
        if codec_num >= 2 * codec_den { (codec_num, codec_den) } else { (2, 1) }
    } else if source_bps >= 30_000_000 {
        (1, 1)
    } else {
        (codec_num, codec_den)
    };
    assert(s == (num as int, den as int));
    let result_bps: u64 = if source_bps >= 30_000_000 {
        assert(source_bps * 1 / 1 == source_bps) by (nonlinear_arith);
        source_bps
    } else {
        assert(source_bps * num <= 30_000_000 * 10) by (nonlinear_arith)
            requires
                source_bps < 30_000_000,
                num <= 10,
        ;
        source_bps * num / den
    };
    let kbps = result_bps / 1000;
    if kbps <= MAX_VIDEO_BITRATE_KBPS {
        kbps
    } else {
        MAX_VIDEO_BITRATE_KBPS
    }
}

/// Output video bitrate (kbps) by bitrate scaling: codec efficiency
/// (HEVC/VP9 0.6, AV1 0.5, H.264 1.0) never reduces the bitrate, low bitrates
/// are boosted, bitrates from 30 Mbps on are not scaled, and the result is
/// capped at half of `i32::MAX`. Codec names are compared lower-cased.
pub fn calculate_output_video_bitrate(
    source_bitrate_bps: Option<u64>,
    input_codec: &str,
    output_codec: &str,
) -> (r: u64)
    ensures
        r == output_video_bitrate_kbps(
            source_bitrate_bps,
            lowercase(input_codec@),
            lowercase(output_codec@),
        ),
        is_ascii_chars(input_codec@) && is_ascii_chars(output_codec@) ==> r == output_video_bitrate_kbps(
            source_bitrate_bps,
            ascii_lowercase(input_codec@),
            ascii_lowercase(output_codec@),
        ),
{
    let input_lower = normalize_video_codec(input_codec);
    let output_lower = normalize_video_codec(output_codec);
    scale_video_bitrate(source_bitrate_bps, input_lower.as_str(), output_lower.as_str())
}

// ── Laws ────────────────────────────────────────────────────────────────────

/// Normalized channel counts are already normalized: normalizing twice gives
/// what normalizing once gives. The result is never 0, 3, 4, 5 or 7.
pub proof fn lemma_output_channels_idempotent(channels: u32)
    ensures
        output_channels(output_channels(channels)) == output_channels(channels),
        output_channels(channels) >= 1,
        output_channels(channels) != 3,
        output_channels(channels) != 4,
        output_channels(channels) != 5,
        output_channels(channels) != 7,
{
}

/// The AAC output is mono, stereo or 5.1; its bitrate never exceeds the
/// surround maximum, and below six channels it is the per-channel rate times
/// the channel count.
pub proof fn lemma_audio_output_bounds(channels: u32)
    ensures
        aac_output_channels(channels) == 1 || aac_output_channels(channels) == 2
            || aac_output_channels(channels) == 6,
        aac_bitrate_kbps(aac_output_channels(channels)) <= MAX_SURROUND_BITRATE,
        aac_output_channels(channels) < 6 ==> aac_bitrate_kbps(aac_output_channels(channels))
            == aac_output_channels(channels) * BITRATE_PER_CHANNEL,
{
}

/// Video bitrate scaling never reduces the bitrate and never exceeds the cap;
/// from 30 Mbps on the bitrate is passed on unscaled.
pub proof fn lemma_video_bitrate_never_reduced(b: u64, input_lower: Seq<char>, output_lower: Seq<char>)
    requires
        b > 0,
    ensures
        ({
            let r = output_video_bitrate_kbps(Some(b), input_lower, output_lower);
            let unscaled = if b / 1000 <= MAX_VIDEO_BITRATE_KBPS {
                (b / 1000) as int
            } else {
                MAX_VIDEO_BITRATE_KBPS as int
            };
            &&& unscaled <= r <= MAX_VIDEO_BITRATE_KBPS
            &&& b >= 30_000_000 ==> r == unscaled
        }),
{
    let fi = codec_factor_tenths(input_lower);
    let fo = codec_factor_tenths(output_lower);
    let s = video_scale(b as int, fi, fo);
    assert(s.0 >= s.1 && s.1 > 0);
    assert(b * s.0 / s.1 >= b) by (nonlinear_arith)
        requires
            s.0 >= s.1,
            s.1 > 0,
            b > 0,
    {
        assert(b * s.0 >= b * s.1);
        vstd::arithmetic::div_mod::lemma_div_is_ordered(b * s.1, b * s.0, s.1);
        vstd::arithmetic::div_mod::lemma_div_by_multiple(b as int, s.1);
    }
    assert((b * s.0 / s.1) / 1000 >= (b as int) / 1000) by {
        vstd::arithmetic::div_mod::lemma_div_is_ordered(b as int, b * s.0 / s.1, 1000);
    }
    if b >= 30_000_000 {
        assert(b * 1 / 1 == b) by (nonlinear_arith);
    }
}

/// Exactly nine audio codecs need transcoding: AC-3, E-AC-3, DTS, TrueHD and
/// the PCM variants s16le, s24le, s32le, Blu-ray and DVD. Every other
/// canonical name (FLAC, AAC, Opus, MP3, ...) passes through.
pub proof fn lemma_unsupported_audio_codecs_exact(name: Seq<char>)
    ensures
        unsupported_audio_codecs().len() == 9,
        unsupported_audio_codecs().contains(name) <==> (name == "ac3"@ || name == "eac3"@ || name == "dts"@
            || name == "truehd"@ || name == "pcm_s16le"@ || name == "pcm_s24le"@ || name == "pcm_s32le"@
            || name == "pcm_bluray"@ || name == "pcm_dvd"@),
{
    let list = unsupported_audio_codecs();
    if name == "ac3"@ {
        assert(list[0] == name);
    } else if name == "eac3"@ {
        assert(list[1] == name);
    } else if name == "dts"@ {
        assert(list[2] == name);
    } else if name == "truehd"@ {
        assert(list[3] == name);
    } else if name == "pcm_s16le"@ {
        assert(list[4] == name);
    } else if name == "pcm_s24le"@ {
        assert(list[5] == name);
    } else if name == "pcm_s32le"@ {
        assert(list[6] == name);
    } else if name == "pcm_bluray"@ {
        assert(list[7] == name);
    } else if name == "pcm_dvd"@ {
        assert(list[8] == name);
    }
}

/// The codec efficiency factor is 0.6 for HEVC and VP9, 0.5 for AV1 and 1.0
/// for every other codec name.
pub proof fn lemma_codec_factor_table(lower: Seq<char>)
    ensures
        (lower == "hevc"@ || lower == "vp9"@) ==> codec_factor_tenths(lower) == 6,
        lower == "av1"@ ==> codec_factor_tenths(lower) == 5,
        lower != "hevc"@ && lower != "vp9"@ && lower != "av1"@ ==> codec_factor_tenths(lower) == 10,
{
    if lower == "av1"@ {
        reveal_strlit("av1");
        reveal_strlit("hevc");
        reveal_strlit("vp9");
        assert(lower.len() != "hevc"@.len());
        assert(lower[0] != "vp9"@[0]);
    }
}

/// Between two codecs of the same efficiency (neither of them HEVC, VP9 or
/// AV1, or both the same) a source bitrate above 3 Mbps is not scaled: the
/// output is the source bitrate in kbps, rounded down and capped.
pub proof fn lemma_same_codec_class_unscaled(b: u64, input_lower: Seq<char>, output_lower: Seq<char>)
    requires
        3_000_000 < b,
        (input_lower != "hevc"@ && input_lower != "vp9"@ && input_lower != "av1"@
            && output_lower != "hevc"@ && output_lower != "vp9"@ && output_lower != "av1"@)
            || input_lower == output_lower,
    ensures
        output_video_bitrate_kbps(Some(b), input_lower, output_lower) == if b / 1000 <= MAX_VIDEO_BITRATE_KBPS {
            (b / 1000) as int
        } else {
            MAX_VIDEO_BITRATE_KBPS as int
        },
{
    lemma_codec_factor_table(input_lower);
    lemma_codec_factor_table(output_lower);
    assert(b * 1 / 1 == b) by (nonlinear_arith);
}

/// Low source bitrates are boosted between codecs of the same efficiency:
/// four times up to 500 kbps, three times up to 1 Mbps, two and a half times
/// up to 2 Mbps and twice up to 3 Mbps (in bps, then kbps rounded down).
pub proof fn lemma_low_bitrate_boost(b: u64, input_lower: Seq<char>, output_lower: Seq<char>)
    requires
        0 < b <= 3_000_000,
        codec_factor_tenths(input_lower) == codec_factor_tenths(output_lower),
    ensures
        ({
            let r = output_video_bitrate_kbps(Some(b), input_lower, output_lower);
            &&& b <= 500_000 ==> r == (b * 4) / 1000
            &&& 500_000 < b <= 1_000_000 ==> r == (b * 3) / 1000
            &&& 1_000_000 < b <= 2_000_000 ==> r == (b * 5 / 2) / 1000
            &&& 2_000_000 < b ==> r == (b * 2) / 1000
        }),
{
    assert(b * 4 / 1 == b * 4 && b * 3 / 1 == b * 3 && b * 2 / 1 == b * 2) by (nonlinear_arith);
}

/// Going from a more efficient codec to H.264-class output raises the
/// bitrate by the ratio of the factors: from HEVC or VP9 by 10/6, from AV1
/// by 2 (source bitrates between 3 and 30 Mbps, where no boost or cut-off
/// applies).
pub proof fn lemma_codec_ratio_scaling(b: u64, input_lower: Seq<char>, output_lower: Seq<char>)
    requires
        3_000_000 < b < 30_000_000,
        output_lower != "hevc"@ && output_lower != "vp9"@ && output_lower != "av1"@,
    ensures
        (input_lower == "hevc"@ || input_lower == "vp9"@) ==> output_video_bitrate_kbps(
            Some(b),
            input_lower,
            output_lower,
        ) == (b * 10 / 6) / 1000,
        input_lower == "av1"@ ==> output_video_bitrate_kbps(Some(b), input_lower, output_lower) == (b * 10
            / 5) / 1000,
{
    lemma_codec_factor_table(input_lower);
    lemma_codec_factor_table(output_lower);
    assert((b * 10 / 6) / 1000 <= MAX_VIDEO_BITRATE_KBPS) by (nonlinear_arith)
        requires
            b < 30_000_000,
    ;
    assert((b * 10 / 5) / 1000 <= MAX_VIDEO_BITRATE_KBPS) by (nonlinear_arith)
        requires
            b < 30_000_000,
    ;
}

/// The channel table: 0 and 1 give mono, 2 to 4 stereo, 5 and 6 give 5.1,
/// 7 gives 7.1, and 8 or more channels pass through. The AAC output is
/// capped at 5.1 and gets 128 kbps per channel, 640 kbps from 5.1 on.
pub proof fn lemma_channel_table(channels: u32)
    ensures
        channels <= 1 ==> output_channels(channels) == 1,
        2 <= channels <= 4 ==> output_channels(channels) == 2,
        5 <= channels <= 6 ==> output_channels(channels) == 6,
        channels == 7 ==> output_channels(channels) == 8,
        channels >= 8 ==> output_channels(channels) == channels,
        aac_output_channels(channels) == if output_channels(channels) > 6 {
            6
        } else {
            output_channels(channels)
        },
        aac_output_channels(channels) == 1 ==> aac_bitrate_kbps(1) == 128,
        aac_output_channels(channels) == 2 ==> aac_bitrate_kbps(2) == 256,
        aac_output_channels(channels) == 6 ==> aac_bitrate_kbps(6) == 640,
{
}

} // verus!
