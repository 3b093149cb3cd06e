[package]
name = "pubiq"
version = "0.1.0"
edition = "2021"
publish = false

[dependencies]
rand = "=0.9.5"
uuid = { version = "=1.29.0", features = ["v4"] }
serde = { version = "=1.0.229", features = ["derive"] }
serde_json = "=1.0.154"
ureq = "=3.5.0"
rouille = "=3.6.2"
nix = { version = "=0.29.0", features = ["time"] }
uptime_lib = "*"
