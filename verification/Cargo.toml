[package]
name = "slippi_ingest"
version = "0.1.0"
edition = "2021"
publish = false

[dependencies]
arrow2 = { version = "=0.17.4", features = ["io_ipc"] }
peppi = "=2.1.2"
serde_json = "=1.0.151"
