pub mod dts;
pub mod pass;
pub mod pipeline;
pub mod session;
pub mod types;

pub use types::{
    CancellationToken, HlsOptions, HlsSegmentType, PauseToken, cancellation_token, pause_token,
};
