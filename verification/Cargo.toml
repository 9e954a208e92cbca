[package]
name = "h3_stream_repro"
version = "0.1.0"
edition = "2021"
publish = false

[dependencies]
tokio = { version = "1.54", features = ["full"] }
quiche = { version = "0.30", features = ["internal"] }
