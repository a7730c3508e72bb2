[package]
name = "monitor_core"
version = "0.1.0"
edition = "2021"
publish = false

[dependencies]
ddc-hi = "=0.4.1"
dirs = "=7.0.0"
env_logger = "=0.11.11"
gtk4 = "=0.11.5"
ksni = { version = "=0.3.7", features = ["blocking"] }
libadwaita = "=0.9.2"
mccs = "=0.1.3"
serde = { version = "=1.0.229", features = ["derive"] }
serde_json = "=1.0.154"
thiserror = "=1.0.69"
