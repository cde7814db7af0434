[package]
name = "chunkflow"
version = "0.1.0"
edition = "2021"
publish = false

[dependencies]
anyhow = "=1.0.104"
iceoryx2 = "=0.10.0"
iceoryx2-bb-container = "=0.10.0"
tokio = { version = "=1.53.2", features = ["io-util", "rt-multi-thread", "macros", "time"] }
