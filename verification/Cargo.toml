[package]
name = "iroh_core"
version = "0.1.0"
edition = "2021"
publish = false

[dependencies]
anyhow = "=1.0.104"
bao-tree = { version = "0.11", default-features = false, features = ["tokio_fsm"] }
bytes = "=1.12.1"
flume = "=0.11.1"
futures = "=0.3.34"
futures-lite = "=2.6.1"
futures-sink = "=0.3.34"
futures-util = { version = "=0.3.34", features = ["sink"] }
hex = "=0.4.3"
parking_lot = "=0.12.5"
postcard = { version = "=1.1.3", features = ["use-std"] }
quinn = { version = "0.10", default-features = false, features = ["runtime-tokio"] }
quinn-udp = "=0.4.1"
rand = "=0.8.8"
redb = "=1.5.2"
reflink-copy = "=0.1.32"
serde = { version = "=1.0.229", features = ["derive"] }
smallvec = "=1.16.4"
thiserror = "=1.0.69"
tokio = { version = "=1.54.1", features = ["rt", "sync", "time", "fs", "io-util", "macros"] }
tokio-tungstenite-wasm = "0.3"
tokio-util = { version = "=0.7.20", features = ["codec"] }
tracing = "=0.1.44"
url = "2"

[dev-dependencies]
tempfile = "=3.27.0"
