[package]
name = "flow_inspector"
version = "0.1.0"
edition = "2021"
publish = false

[dependencies]
libc = "=0.2.191"
pcap = "=2.5.0"
websocket = { version = "=0.27.1", default-features = false, features = ["sync"] }
crossbeam = "=0.8.5"
dipstick = "=0.9.4"
serde = { version = "=1.0.229", features = ["derive"] }
serde_json = "=1.0.154"
sysinfo = "=0.39.6"
libproc = "=0.14.11"

[dev-dependencies]
pnet = "=0.35.0"
