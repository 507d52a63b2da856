[package]
name = "monochrome_audio"
version = "0.1.0"
edition = "2021"
publish = false

[dependencies]
anyhow = "1"
log = "0.4"
parking_lot = "0.12"
once_cell = "1"
jni = "0.21"
cpal = "0.15"
ffmpeg-next = "7"
android_logger = "0.13"
