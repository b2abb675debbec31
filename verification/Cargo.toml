[package]
name = "duo_hotp_export"
version = "1.0.0"
edition = "2021"
publish = false

[dependencies]
base64 = "=0.13.1"
serde_json = "=1.0.154"
clap = "=2.34.0"
reqwest = { version = "=0.11.27", default-features = false, features = ["blocking", "rustls-tls"] }
image = "=0.24.9"
bardecoder = "=0.5.0"
qrcode = { version = "=0.14.1", default-features = false }

[dev-dependencies]
base32 = "=0.4.0"
