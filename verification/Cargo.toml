[package]
name = "papi"
version = "0.1.0"
edition = "2021"
publish = false

[dependencies]
criterion = { version = "*", default-features = false }
error-chain = "*"
libc = "*"
papi-sys = "*"
serde = { version = "*", features = ["derive"] }
serde_derive = "*"
toml = "*"
