[package]
name = "screencapturekit"
version = "0.1.0"
edition = "2021"

[dependencies]
block = "0.1"
dispatch = "0.2"
objc = "0.2"
objc-foundation = "0.1"
objc_id = "0.1"
