[package]
name = "damm-v2-fee-routing"
version = "0.1.0"
edition = "2021"
publish = false

[dependencies]
anchor-lang = "0.31.0"
anchor-spl = { version = "0.31.0", default-features = false, features = ["token", "token_2022", "associated_token"] }
