[package]
name = "uds_isotp"
version = "0.1.0"
edition = "2021"
publish = false

[dependencies]
hex = "0.4"
bytes = "1"
rs-can = "*"
serde = { version = "1", features = ["derive"] }
tokio = { version = "1", features = ["sync", "time", "rt", "macros"] }
async-trait = "0.1"
stream-cancel = "0.8"
tokio-stream = { version = "0.1", features = ["sync"] }
rsutil = "*"
bitflags = "2"
