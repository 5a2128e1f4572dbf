[package]
name = "dydx-cosmwasm"
version = "0.1.0"
edition = "2021"
publish = false

[dependencies]
num-bigint = "0.4"
serde = { version = "1", features = ["derive"] }
serde_repr = "0.1"
schemars = "0.8"
cosmwasm-std = "1.5"
cosmwasm-schema = "1.5"
cw2 = "1.1"
cw-storage-plus = "1.2"
cw-utils = "1.0"
thiserror = "1"
prost = "0.13"
prost-types = "0.13"
tonic = "0.12"
http = "1"
cosmos-sdk-proto = "0.26"
