[package]
name = "audiostream"
version = "0.1.0"
edition = "2021"
publish = false

[dependencies]
num = "0.4"
rand = "0.7"
log = "0.4"
ao = "0.6"
vorbisfile = "0.2"
