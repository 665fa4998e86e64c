[package]
name = "xworks_freelance_contract"
version = "0.1.0"
edition = "2021"
publish = false

[dependencies]
sha2 = "0.10"
base64 = "0.22"
hex = "0.4"
cosmwasm-std = "2"
cw-storage-plus = "2"
cw2 = "2"
cw20 = "2"
cw-utils = "2"
serde = { version = "1", default-features = false, features = ["derive"] }
serde_json = "1"
schemars = "0.8"
thiserror = "1"
