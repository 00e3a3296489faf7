[package]
name = "katana_hypervisor"
version = "0.1.0"
edition = "2021"
publish = false

[dependencies]
hex = "*"
port_scanner = "*"
nix = { version = "*", features = ["signal"] }
chrono = "*"
rusqlite = { version = "*", features = ["bundled"] }
serde = { version = "*", features = ["derive"] }
serde_json = "*"
toml = "*"
tempfile = "*"
reqwest = { version = "*", default-features = false, features = ["blocking", "json"] }
