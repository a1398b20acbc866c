//! Codec name normalization.
//!
//! Probed codec names are descriptor names (`"h264"`, `"hevc"`, `"dts"`, ...),
//! so video and audio names only need lower-casing. Subtitle descriptor names
//! are long (`"hdmv_pgs_subtitle"`, `"subrip"`, ...) and are mapped to the
//! short canonical names used by the frontend.

use vstd::prelude::*;
use vstd::utf8::is_ascii_chars;
use crate::text::{
    lowercase, ascii_lowercase, has_no_ascii_upper, str_to_lowercase, str_eq,
    lemma_ascii_lowercase_idempotent, lemma_ascii_lowercase_fixed,
};

verus! {

/// The canonical subtitle name for an already lower-cased descriptor name.
pub open spec fn canonical_subtitle_name(lower: Seq<char>) -> Seq<char> {
    if lower == "hdmv_pgs_subtitle"@ {
        "pgs"@
    } else if lower == "dvd_subtitle"@ {
        "dvdsub"@
    } else if lower == "dvb_subtitle"@ {
        "dvbsub"@
    } else if lower == "subrip"@ || lower == "mov_text"@ || lower == "text"@
        || lower == "hdmv_text_subtitle"@ {
        "srt"@
    } else if lower == "ssa"@ {
        "ass"@
    } else if lower == "webvtt"@ {
        "vtt"@
    } else if lower == "eia_608"@ {
        "cc"@
    } else if lower == "dvb_teletext"@ {
        "teletext"@
    } else {
        lower
    }
}

/// Normalize a video codec name: its lower-case form.
pub fn normalize_video_codec(codec: &str) -> (r: String)
    ensures
        r@ == lowercase(codec@),
        is_ascii_chars(codec@) ==> r@ == ascii_lowercase(codec@),
{
    str_to_lowercase(codec)
}

/// Normalize an audio codec name: its lower-case form.
pub fn normalize_audio_codec(codec: &str) -> (r: String)
    ensures
        r@ == lowercase(codec@),
        is_ascii_chars(codec@) ==> r@ == ascii_lowercase(codec@),
{
    str_to_lowercase(codec)
}

/// Map an already lower-cased subtitle descriptor name to its canonical
/// short name; names that are not descriptor names pass through.
pub fn canonical_subtitle_codec(lower: &str) -> (r: String)
    ensures
        r@ == canonical_subtitle_name(lower@),
{
    if str_eq(lower, "hdmv_pgs_subtitle") {
        "pgs".to_string()
    } else if str_eq(lower, "dvd_subtitle") {
        "dvdsub".to_string()
    } else if str_eq(lower, "dvb_subtitle") {
        "dvbsub".to_string()
    } else if str_eq(lower, "subrip") || str_eq(lower, "mov_text") || str_eq(lower, "text")
        || str_eq(lower, "hdmv_text_subtitle") {
        "srt".to_string()
    } else if str_eq(lower, "ssa") {
        "ass".to_string()
    } else if str_eq(lower, "webvtt") {
        "vtt".to_string()
    } else if str_eq(lower, "eia_608") {
        "cc".to_string()
    } else if str_eq(lower, "dvb_teletext") {
        "teletext".to_string()
    } else {
        lower.to_string()
    }
}

/// Normalize a subtitle codec name from its descriptor name to the shorter
/// canonical form: lower-case it, then map descriptor names such as
/// `"hdmv_pgs_subtitle"` to `"pgs"` and `"subrip"` to `"srt"`.
pub fn normalize_subtitle_codec(codec: &str) -> (r: String)
    ensures
        r@ == canonical_subtitle_name(lowercase(codec@)),
        is_ascii_chars(codec@) ==> r@ == canonical_subtitle_name(ascii_lowercase(codec@)),
{
    let lower = str_to_lowercase(codec);
    canonical_subtitle_codec(lower.as_str())
}

/// The canonical subtitle names are fixed points of the mapping: mapping a
/// name twice gives what mapping it once gives.
pub proof fn lemma_canonical_subtitle_idempotent(lower: Seq<char>)
    ensures
        canonical_subtitle_name(canonical_subtitle_name(lower)) == canonical_subtitle_name(lower),
{
    reveal_strlit("hdmv_pgs_subtitle");
    reveal_strlit("dvd_subtitle");
    reveal_strlit("dvb_subtitle");
    reveal_strlit("subrip");
    reveal_strlit("mov_text");
    reveal_strlit("text");
    reveal_strlit("hdmv_text_subtitle");
    reveal_strlit("ssa");
    reveal_strlit("webvtt");
    reveal_strlit("eia_608");
    reveal_strlit("dvb_teletext");
    reveal_strlit("pgs");
    reveal_strlit("dvdsub");
    reveal_strlit("dvbsub");
    reveal_strlit("srt");
    reveal_strlit("ass");
    reveal_strlit("vtt");
    reveal_strlit("cc");
    reveal_strlit("teletext");
    assert("pgs"@[0] != "ssa"@[0]);
    assert("srt"@[1] != "ssa"@[1]);
    assert("ass"@[0] != "ssa"@[0]);
    assert("vtt"@[0] != "ssa"@[0]);
    assert("dvdsub"@[0] != "subrip"@[0]);
    assert("dvdsub"@[0] != "webvtt"@[0]);
    assert("dvbsub"@[0] != "subrip"@[0]);
    assert("dvbsub"@[0] != "webvtt"@[0]);
    assert("teletext"@[0] != "mov_text"@[0]);
}

/// Every canonical subtitle name produced from lower-case ASCII text is
/// itself lower-case ASCII text.
proof fn lemma_canonical_subtitle_lower(lower: Seq<char>)
    requires
        has_no_ascii_upper(lower),
        is_ascii_chars(lower),
    ensures
        has_no_ascii_upper(canonical_subtitle_name(lower)),
        is_ascii_chars(canonical_subtitle_name(lower)),
{
    reveal_strlit("pgs");
    reveal_strlit("dvdsub");
    reveal_strlit("dvbsub");
    reveal_strlit("srt");
    reveal_strlit("ass");
    reveal_strlit("vtt");
    reveal_strlit("cc");
    reveal_strlit("teletext");
}

/// Normalizing an ASCII subtitle codec name twice gives what normalizing it
/// once gives: the first result is again ASCII, and mapping its lower-case
/// form changes nothing.
pub proof fn lemma_normalize_subtitle_idempotent(codec: Seq<char>)
    requires
        is_ascii_chars(codec),
    ensures
        is_ascii_chars(canonical_subtitle_name(ascii_lowercase(codec))),
        canonical_subtitle_name(ascii_lowercase(canonical_subtitle_name(ascii_lowercase(codec))))
            == canonical_subtitle_name(ascii_lowercase(codec)),
{
    let lower = ascii_lowercase(codec);
    lemma_ascii_lowercase_idempotent(codec);
    lemma_canonical_subtitle_lower(lower);
    let once = canonical_subtitle_name(lower);
    lemma_ascii_lowercase_fixed(once);
    lemma_canonical_subtitle_idempotent(lower);
}

/// Normalizing an ASCII video or audio codec name twice gives what
/// normalizing it once gives.
pub proof fn lemma_normalize_codec_idempotent(codec: Seq<char>)
    requires
        is_ascii_chars(codec),
    ensures
        is_ascii_chars(ascii_lowercase(codec)),
        ascii_lowercase(ascii_lowercase(codec)) == ascii_lowercase(codec),
{
    lemma_ascii_lowercase_idempotent(codec);
}

} // verus!
