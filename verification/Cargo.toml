[package]
name = "dmc_mod_loader"
version = "0.1.0"
edition = "2021"
publish = false

[dependencies]
xxhash-rust = { version = "*", features = ["xxh3", "const_xxh3"] }
libloading = "*"
log = "*"
serde = { version = "*", features = ["derive"] }
toml = "*"
