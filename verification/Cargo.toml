[package]
name = "netlink_audit_codec"
version = "0.1.0"
edition = "2021"
publish = false

[dependencies]
bytes = "=1.12.1"
netlink-packet-core = "=0.9.0"
netlink-packet-route = "=0.33.0"
netlink-proto = "=0.13.0"

[dev-dependencies]
tokio = { version = "=1.53.2", features = ["rt"] }
