[package]
name = "turnon"
version = "0.1.0"
edition = "2021"
publish = false

[dependencies]
macaddr = "=1.0.1"
wol = "=0.5.1"
semver = "=1.0.28"
etherparse = "=0.21.0"
serde = { version = "=1.0.229", features = ["derive"] }
serde_json = "=1.0.154"
socket2 = "=0.5.10"
formatx = "=0.4.2"
