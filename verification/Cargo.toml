[package]
name = "staking"
version = "0.1.0"
edition = "2021"
publish = false

[dependencies]
anchor-lang = "0.30.1"
wormhole-raw-vaas = "*"
ethabi = "*"
borsh = "*"
hex = "*"
