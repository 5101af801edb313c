[package]
name = "sound_control"
version = "0.1.0"
edition = "2021"
publish = false

[dependencies]
log = "=0.4.34"
swf = "=0.3.0"
