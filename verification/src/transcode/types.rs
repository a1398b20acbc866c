//! Transcode option types and the plain values that the transcode logic reads.

use vstd::prelude::*;
use std::sync::Arc;
use std::sync::atomic::AtomicBool;

verus! {

/// A cloneable handle to cancel a running transcode: store `true` from any
/// thread to request a clean shutdown.
pub type CancellationToken = Arc<AtomicBool>;

/// A cloneable handle to pause (`true`) or resume (`false`) a running
/// transcode.
pub type PauseToken = Arc<AtomicBool>;

/// Create a new cancellation token (not cancelled).
pub fn cancellation_token() -> CancellationToken {
    Arc::new(AtomicBool::new(false))
}

/// Create a new pause token (not paused).
pub fn pause_token() -> PauseToken {
    Arc::new(AtomicBool::new(false))
}

/// The timestamp value that stands for "no timestamp".
pub const NOPTS_VALUE: i64 = i64::MIN;

/// A rational number `num / den`, such as a time base or a frame rate.
#[derive(Clone, Copy, Debug, PartialEq, Eq, Structural)]
pub struct Rational {
    pub num: i32,
    pub den: i32,
}

/// The kind of media a stream carries.
#[derive(Clone, Copy, Debug, PartialEq, Eq, Structural)]
pub enum MediaKind {
    Video,
    Audio,
    Subtitle,
    Attachment,
    Data,
    Unknown,
}

/// HLS segment container format.
#[derive(Clone, Copy, Debug, PartialEq, Eq, Structural)]
pub enum HlsSegmentType {
    /// Fragmented MP4: needs an init segment and `#EXT-X-MAP`.
    Fmp4,
    /// MPEG-TS: self-contained segments, no init segment.
    Mpegts,
}

impl Default for HlsSegmentType {
    fn default() -> (r: Self)
        ensures
            r == HlsSegmentType::Fmp4,
    {
        HlsSegmentType::Fmp4
    }
}

/// File extension of the segments of a segment type.
pub open spec fn segment_extension(t: HlsSegmentType) -> Seq<char> {
    match t {
        HlsSegmentType::Fmp4 => "tokimo"@,
        HlsSegmentType::Mpegts => "ts"@,
    }
}

impl HlsSegmentType {
    /// File extension for segments of this type.
    pub fn extension(&self) -> (r: &'static str)
        ensures
            r@ == segment_extension(*self),
    {
        match self {
            HlsSegmentType::Fmp4 => "tokimo",
            HlsSegmentType::Mpegts => "ts",
        }
    }
}

/// HLS output configuration.
#[derive(Debug)]
pub struct HlsOptions {
    /// Segment duration in seconds.
    pub segment_duration: u32,
    /// Segment filename pattern (e.g. "/tmp/hls/%05d.tokimo").
    pub segment_pattern: String,
    /// Init segment filename (e.g. "init.mp4"); used for fMP4 only.
    pub init_filename: String,
    /// Playlist type: "event" or "vod".
    pub playlist_type: String,
    /// Starting segment number.
    pub start_number: u32,
    /// Segment container format.
    pub segment_type: HlsSegmentType,
}

impl HlsOptions {
    /// The same configuration, starting at another segment number: what a
    /// pass restarted by a seek writes.
    pub fn restarted_at(&self, start_segment: u32) -> (r: HlsOptions)
        ensures
            r == (HlsOptions { start_number: start_segment, ..*self }),
    {
        HlsOptions {
            segment_duration: self.segment_duration,
            segment_pattern: self.segment_pattern.clone(),
            init_filename: self.init_filename.clone(),
            playlist_type: self.playlist_type.clone(),
            start_number: start_segment,
            segment_type: self.segment_type,
        }
    }
}

impl Clone for HlsOptions {
    fn clone(&self) -> (r: HlsOptions)
        ensures
            r == *self,
    {
        self.restarted_at(self.start_number)
    }
}

} // verus!
