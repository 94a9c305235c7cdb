[package]
name = "ntp_time"
version = "0.1.0"
edition = "2021"
publish = false

[dependencies]
sntpc = "0.3"
tokio = { version = "1", features = ["macros", "rt-multi-thread"] }
warp = "0.3"
