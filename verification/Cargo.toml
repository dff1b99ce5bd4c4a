[package]
name = "gekko_vpn"
version = "0.1.0"
edition = "2021"
publish = false

[dependencies]
is_elevated = "0.1"
keyring = "2"
winreg = "0.52"
