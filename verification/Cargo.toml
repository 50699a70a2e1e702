[package]
name = "freeverb"
version = "0.1.0"
edition = "2021"
publish = false

[dependencies]
audio_thread_priority = { version = "=0.38.0", default-features = false }
crossbeam-channel = "=0.5.17"
gtk = "=0.19.0"
portaudio = "=0.8.0"
