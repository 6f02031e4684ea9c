[package]
name = "field_codecs"
version = "0.1.0"
edition = "2021"
publish = false

[dependencies]
base64 = "0.13"
bs58 = "0.5"
bytes = "0.4"
prost = { version = "0.13", default-features = false }
serde = "1"
