pub mod codec;
pub mod encoding;
