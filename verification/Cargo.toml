[package]
name = "swap_escrow"
version = "0.1.0"
edition = "2021"
publish = false

[dependencies]
cosmwasm-std = { version = "=2.3.5", features = ["cosmwasm_2_0"] }
cw-storage-plus = "=2.0.0"
cw2 = "=2.0.0"
cw-utils = "=2.0.0"
prost = "=0.13.5"
serde = { version = "1", features = ["derive"] }
hex = "=0.4.3"
sha3 = "=0.12.0"
thiserror = "2"
