[package]
name = "fdfu"
version = "0.1.0"
edition = "2021"
publish = false

[dependencies]
byteorder = "=1.5.0"
crc16 = "=0.4.0"
failure = "=0.1.8"
