//! Media transcoding library: codec-name normalization, encoding rules,
//! DTS estimation for stream copy, stream selection and the decisions of
//! transcode sessions and screenshot capture, and the memory figures of the
//! screenshot memory bench.

pub mod common;
pub mod error;
pub mod media;
pub mod memory;
pub mod text;
pub mod transcode;

pub use error::{Error, Result, ResultExt};
pub use common::codec::{normalize_audio_codec, normalize_subtitle_codec, normalize_video_codec};
pub use common::encoding::{
    BITRATE_PER_CHANNEL, DEFAULT_VIDEO_BITRATE_KBPS, MAX_AAC_CHANNELS, MAX_SURROUND_BITRATE,
    calculate_audio_output, calculate_output_video_bitrate, needs_audio_transcode, normalize_output_channels,
};
pub use transcode::{
    CancellationToken, HlsOptions, HlsSegmentType, PauseToken, cancellation_token, pause_token,
};
