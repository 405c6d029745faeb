[package]
name = "auth0_jwt"
version = "0.1.0"
edition = "2021"
publish = false

[dependencies]
alcoholic_jwt = "=10039.0.0"
serde = { version = "=1.0.229", features = ["derive"] }
serde_json = "=1.0.151"
reqwest = { version = "=0.13.5", default-features = false }
async-trait = "=0.1.92"
headers = "=0.4.2"

[dev-dependencies]
openssl = "=0.10.81"
base64 = "=0.22.1"
