[package]
name = "fingerprint_kit"
version = "0.1.0"
edition = "2021"
publish = false

[dependencies]
base64 = "0.22"
serde = { version = "1", features = ["derive"] }
serde_json = "1"
fprint-mindtct = "0.1.0"
fprint-bozorth3 = "0.1.0"
clap = { version = "4", features = ["derive"] }
tempfile = "3"

[dev-dependencies]
serde_json = "1"
