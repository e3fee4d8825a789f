[package]
name = "fuite"
version = "0.1.0"
edition = "2021"
publish = false

[dependencies]
fern = { version = "0.5", features = ["colored"] }
fnv = "1.0"
log = "0.4"
rand = "0.6"
serde = "1.0"
serde_derive = "1.0"
