[package]
name = "entry_chain"
version = "0.1.0"
edition = "2021"
publish = false

[dependencies]
rayon = "=1.12.0"
sha2 = "=0.11.1"
ring = "=0.17.14"
serde = { version = "=1.0.229", features = ["derive"] }
