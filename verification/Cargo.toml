[package]
name = "btc_wallet_core"
version = "0.1.0"
edition = "2021"
publish = false

[dependencies]
bitcoin = "0.30"
ic-cdk = "0.13"
candid = "0.10"
