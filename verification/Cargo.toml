[package]
name = "pixelflut"
version = "0.1.0"
edition = "2021"
publish = false

[dependencies]
rand = "0.8"
image = { version = "0.24", default-features = false, features = ["png", "jpeg"] }
clap = { version = "4", features = ["derive"] }
color-eyre = "0.6"
kanal = "0.1"
tokio = { version = "1", features = ["rt-multi-thread", "net", "io-util"] }
tracing = "0.1"
tracing-subscriber = "0.3"
