[package]
name = "junobox"
version = "0.1.0"
edition = "2021"
publish = false

[dependencies]
cosmwasm-std = "*"
cw2 = "*"
cw-storage-plus = "*"
cw-utils = "*"
schemars = "*"
serde = { version = "*", features = ["derive"] }
sha2 = "*"
thiserror = "*"
