[package]
name = "filelist_sync"
version = "0.1.0"
edition = "2021"
publish = false

[dependencies]
anyhow = "1"
bytes = "1"
chrono = "0.4"
log = "0.4"
tokio = { version = "1", features = ["rt", "time", "macros"] }
zstd = "*"
