[package]
name = "gaze_fusion"
version = "0.1.0"
edition = "2021"
publish = false

[dependencies]
bytes = "0.4"
enigo = "0.0"
tobii-sys = "*"
tokio = "0.1"
tokio-io = "0.1"
tokio-serial = "3"
