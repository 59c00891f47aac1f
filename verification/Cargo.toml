[package]
name = "nodepass_gui"
version = "0.1.0"
edition = "2021"
publish = false

[dependencies]
flate2 = "*"
tar = "*"
zip = { version = "*", default-features = false, features = ["deflate"] }
serde = { version = "*", features = ["derive"] }
serde_json = "*"
tokio = { version = "*", features = ["rt-multi-thread", "macros", "io-util", "process", "sync", "time", "fs"] }
tokio-stream = "*"
reqwest = { version = "*", default-features = false, features = ["stream"] }
dirs = "*"
