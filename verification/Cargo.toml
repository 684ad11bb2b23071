[package]
name = "gst_audio_backend"
version = "0.1.0"
edition = "2021"
publish = false

[dependencies]
gstreamer = "0.23"
gstreamer-app = "0.23"
log = "0.4"
thiserror = "2"
