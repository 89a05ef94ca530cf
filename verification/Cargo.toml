[package]
name = "softphone"
version = "0.1.0"
edition = "2021"
publish = false

[dependencies]
chrono = "=0.4.45"
futures-util = "=0.3.34"
local-ip-address = "=0.6.13"
log = "=0.4.34"
rvoip = { version = "0.4", default-features = false }
tokio = { version = "=1.54.1", features = ["macros", "rt", "sync", "time"] }
uuid = "=1.29.0"
