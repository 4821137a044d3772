[package]
name = "ethereum_light_client"
version = "0.1.0"
edition = "2021"
publish = false

[dependencies]
cosmwasm-std = "*"
prost = "*"
tendermint-proto = "*"
serde = { version = "*", features = ["derive"] }
