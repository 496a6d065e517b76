[package]
name = "liidi"
version = "0.1.0"
edition = "2021"
publish = false

[dependencies]
serde = { version = "*", features = ["derive"] }
serde_json = "*"
sha2 = "*"
aes-gcm = "*"
base64 = "*"
uuid = { version = "*", features = ["v4"] }
chrono = "*"
rusqlite = { version = "*", features = ["bundled"] }
tokio = { version = "*", features = ["full"] }
nix = { version = "*", features = ["signal", "process"] }
whoami = "*"
dirs = "*"
