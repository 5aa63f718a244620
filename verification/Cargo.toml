[package]
name = "lanlink"
version = "0.1.0"
edition = "2021"
publish = false

[dependencies]
searchlight = "*"
tokio = { version = "1", features = ["rt", "rt-multi-thread", "net", "io-util", "time", "macros"] }
serde = { version = "1", features = ["derive"] }
serde_json = "1"
if-addrs = "*"
portpicker = "*"
enigo = "*"
ctrlc = "3"
