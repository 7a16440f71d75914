[package]
name = "probe_gdb"
version = "0.1.0"
edition = "2021"
publish = false

[dependencies]
memchr = "2"
gdb-protocol = "0.1"
probe-rs-target = "0.12"
async-std = "1"
futures = "0.3"
log = "0.4"
