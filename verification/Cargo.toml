[package]
name = "kbs2"
version = "0.1.0"
edition = "2021"
publish = false

[dependencies]
age = "=0.11.5"
sha2 = "=0.10.9"
rand = "=0.8.8"
nix = { version = "=0.29.0", features = ["mman", "fs"] }
memmap = "0.7"
serde = { version = "1", features = ["derive"] }
toml = "0.8"
shellexpand = "3"
anyhow = "1"
