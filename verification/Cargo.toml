[package]
name = "opus_source"
version = "0.1.0"
edition = "2021"
publish = false

[dependencies]
audiopus = "0.2"
bitreader = "0.3"
byteorder = "1"
caf = "0.1"
ogg = "0.8"
thiserror = "1"
