[package]
name = "ads_proto"
version = "0.1.0"
edition = "2021"
publish = false

[dependencies]
bitfield = "*"
byteorder = "1"
thiserror = "1"
