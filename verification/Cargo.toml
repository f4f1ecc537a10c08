[package]
name = "flight_control"
version = "0.1.0"
edition = "2021"
publish = false

[dependencies]
cu29 = "=0.7.0"
cu29-helpers = "=0.7.0"
cu-msp-lib = "=0.7.0"
cu-msp-sink = "=0.7.0"
cu-msp-src = "=0.7.0"
cu-apriltag = "=0.7.0"
cached-path = "0.8"
