[package]
name = "whisper_wrapper"
version = "0.1.0"
edition = "2021"
publish = false

[dependencies]
cpal = "0.15"
regex = "1"
ringbuf = "0.4"
