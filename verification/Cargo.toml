[package]
name = "superapp_openmls"
version = "0.1.0"
edition = "2021"
publish = false

[dependencies]
base64 = "*"
openmls = "*"
openmls_basic_credential = "*"
openmls_rust_crypto = "*"
openmls_sqlite_storage = "*"
openmls_traits = "*"
serde = { version = "*", features = ["derive"] }
serde_json = "*"
tls_codec = "*"
