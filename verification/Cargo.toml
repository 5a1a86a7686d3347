[package]
name = "snp_attest"
version = "0.1.0"
edition = "2021"
publish = false

[dependencies]
hex = "=0.4.3"
openssl = "=0.10.81"
serde_json = "=1.0.151"
sev = { version = "=8.0.0", features = ["openssl", "snp", "serde"] }
reqwest = { version = "=0.13.5", features = ["blocking"] }
