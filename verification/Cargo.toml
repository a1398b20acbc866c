[package]
name = "tokimo_package_ffmpeg"
version = "0.1.0"
edition = "2021"
publish = false

[dependencies]
rsmpeg = { version = "0.18.0", default-features = false, features = ["ffmpeg7_1", "link_system_ffmpeg"] }
thiserror = "2"
clap = { version = "4", features = ["derive"] }
anyhow = "1"
serde_json = "1"
tracing = "0.1"
tracing-subscriber = { version = "0.3", features = ["env-filter"] }
tokio = { version = "1", features = ["rt-multi-thread", "macros", "sync"] }
libc = "0.2"
tikv-jemallocator = "0.6"
tikv-jemalloc-ctl = "0.6"
