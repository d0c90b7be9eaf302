[package]
name = "nattype"
version = "0.1.0"
edition = "2021"
publish = false

[dependencies]
stun_codec = "0.3.4"
bytecodec = "0.4.15"
rand = "0.8"
anyhow = "1.0"
tokio = { version = "1", features = ["full"] }
clap = { version = "4", features = ["derive"] }
reqwest = { version = "0.12", default-features = false }
socket2 = { version = "0.5", features = ["all"] }
igd-next = { version = "*", features = ["aio_tokio"] }
natpmp = { version = "*", features = ["tokio"] }
tracing = "0.1"
tracing-subscriber = { version = "0.3", features = ["env-filter", "fmt"] }
