[package]
name = "packet_views"
version = "0.1.0"
edition = "2021"
publish = false

[dependencies]
etherparse = "=0.21.0"
aya-ebpf-bindings = "=0.1.2"
serde = { version = "=1.0.229", features = ["derive"] }
schemars = "=1.2.3"
