[package]
name = "bluest"
version = "0.1.0"
edition = "2021"
publish = false

[dependencies]
async-lock = "=3.4.2"
bluer = { version = "=0.17.4", features = ["l2cap"] }
core-foundation-sys = "=0.8.7"
futures-core = "=0.3.34"
futures-io = "=0.3.34"
futures-lite = "=2.6.1"
serde = { version = "=1.0.229", features = ["derive"] }
tokio = { version = "=1.54.1", features = ["rt", "io-util"] }
tokio-util = { version = "=0.7.20", features = ["compat"] }
tracing = "=0.1.44"
uuid = "=1.29.0"
windows = { version = "=0.48.0", features = ["Devices_Bluetooth_GenericAttributeProfile", "Foundation", "Storage_Streams"] }
