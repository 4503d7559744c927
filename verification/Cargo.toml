[package]
name = "jmes"
version = "0.1.0"
edition = "2021"
publish = false

[dependencies]
cosmwasm-std = { version = "1.1", features = ["cosmwasm_1_1"] }
cw-utils = "0.16"
cw-storage-plus = "0.16"
cw2 = "0.16"
cw3 = "0.16"
cw4 = "0.16"
cw-controllers = "0.16"
cw721 = "0.15"
cw721-base = { version = "0.15", features = ["library"] }
cosmwasm-schema = "1.1"
schemars = "0.8"
serde = { version = "1", default-features = false, features = ["derive"] }
thiserror = "1"
