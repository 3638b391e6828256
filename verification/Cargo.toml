[package]
name = "voc"
version = "0.1.0"
edition = "2021"
publish = false

[dependencies]
fastrand = "2"
tokio = { version = "1", features = ["net", "time", "sync", "rt", "macros"] }
opus = "0.3"
cpal = "*"
