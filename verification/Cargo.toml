[package]
name = "icp-buyer-seller-contract-backend"
version = "0.1.0"
edition = "2021"
publish = false

[dependencies]
alloy = { version = "0.3", default-features = false }
candid = "0.10"
ic-cdk = "0.16"
ic-stable-structures = "0.6"
serde = { version = "1", features = ["derive"] }
