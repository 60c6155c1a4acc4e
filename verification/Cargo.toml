[package]
name = "webrtc_sendrecv"
version = "0.1.0"
edition = "2021"
publish = false

[dependencies]
anyhow = "1"
clap = "2"
failure = "0.1"
futures = "0.3"
glib = "0.8"
gstreamer = "0.14"
gstreamer-sdp = "0.14"
gstreamer-webrtc = "0.14"
lazy_static = "1"
rand = "0.7"
serde = { version = "1", features = ["derive"] }
serde_json = "1"
thiserror = "1"
tokio = { version = "0.2", features = ["full"] }
tokio-tungstenite = "0.10"
tungstenite = "0.10"
url = "2"
