//! Per-frame decisions of the decode, filter and encode threads.

use vstd::prelude::*;
use crate::transcode::types::{Rational, NOPTS_VALUE};

verus! {

/// Skip a decoded audio frame before the seek point (pre-roll): only when
/// seeking (`seek_pts > 0`). A frame without a timestamp counts as before it.
pub fn should_skip_audio_frame(pts: i64, seek_pts: i64) -> (r: bool)
    ensures
        r == (seek_pts > 0 && pts < seek_pts),
{
    seek_pts > 0 && pts < seek_pts
}

/// A filtered frame's PTS is rescaled to the encoder time base when it has a
/// PTS and the two time bases differ (by numerator or denominator).
pub fn needs_pts_rescale(pts: i64, filter_tb: Rational, enc_tb: Rational) -> (r: bool)
    ensures
        r == (pts != NOPTS_VALUE && filter_tb != enc_tb),
{
    pts != NOPTS_VALUE && (filter_tb.num != enc_tb.num || filter_tb.den != enc_tb.den)
}

/// The PTS given to a decoded frame: its best-effort timestamp when it has
/// one, else the PTS it came with.
pub fn decoded_frame_pts(best_effort_timestamp: i64, frame_pts: i64) -> (r: i64)
    ensures
        r == if best_effort_timestamp != NOPTS_VALUE { best_effort_timestamp } else { frame_pts },
{
    if best_effort_timestamp != NOPTS_VALUE {
        best_effort_timestamp
    } else {
        frame_pts
    }
}

// ── Audio thread ────────────────────────────────────────────────────────────

/// Counts the decoded audio frames skipped before the seek point.
#[derive(Clone, Copy, Debug, PartialEq, Eq, Structural)]
pub struct PrerollCounter {
    pub skipped: u64,
}

impl PrerollCounter {
    pub fn new() -> (r: Self)
        ensures
            r.skipped == 0,
    {
        PrerollCounter { skipped: 0 }
    }

    /// Decide whether a decoded audio frame is encoded: a frame before the
    /// seek point is skipped and counted.
    pub fn on_frame(&mut self, pts: i64, seek_pts: i64) -> (encode: bool)
        requires
            (seek_pts > 0 && pts < seek_pts) ==> old(self).skipped < u64::MAX,
        ensures
            encode == !(seek_pts > 0 && pts < seek_pts),
            final(self).skipped == if encode { old(self).skipped as int } else { old(self).skipped + 1 },
    {
        if should_skip_audio_frame(pts, seek_pts) {
            self.skipped = self.skipped + 1;
            false
        } else {
            true
        }
    }
}

/// Whether the audio thread goes on with a packet it received: not once the
/// pass is cancelled (it then stops reading, so the demuxer is not blocked).
pub fn audio_continues(cancelled: bool) -> (r: bool)
    ensures
        r == !cancelled,
{
    !cancelled
}

/// What the audio thread does once its input ends.
#[derive(Clone, Copy, Debug, PartialEq, Eq, Structural)]
pub struct AudioFinish {
    /// Drain the decoder and encode what it still holds.
    pub flush_decoder: bool,
    /// Drain the filter graph.
    pub flush_filter: bool,
    /// Drain the encoder.
    pub flush_encoder: bool,
    /// Report how many pre-roll frames were skipped.
    pub report_preroll: bool,
}

/// The end of the audio thread: a cancelled pass flushes nothing (its
/// segments are discarded); otherwise decoder and filter are drained, the
/// encoder too when it delays output, and skipped pre-roll frames are
/// reported when there were any. The stream is marked finished either way.
pub fn audio_finish(cancelled: bool, encoder_has_delay: bool, preroll_skipped: u64) -> (r: AudioFinish)
    ensures
        r == if cancelled {
            AudioFinish { flush_decoder: false, flush_filter: false, flush_encoder: false, report_preroll: false }
        } else {
            AudioFinish {
                flush_decoder: true,
                flush_filter: true,
                flush_encoder: encoder_has_delay,
                report_preroll: preroll_skipped > 0,
            }
        },
{
    if cancelled {
        AudioFinish { flush_decoder: false, flush_filter: false, flush_encoder: false, report_preroll: false }
    } else {
        AudioFinish {
            flush_decoder: true,
            flush_filter: true,
            flush_encoder: encoder_has_delay,
            report_preroll: preroll_skipped > 0,
        }
    }
}

} // verus!
