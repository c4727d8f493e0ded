[package]
name = "zcash_local_net"
version = "0.1.0"
edition = "2021"
publish = false

[dependencies]
getset = "0.1"
portpicker = "0.1"
tempfile = "3"
tracing = "0.1"
