[package]
name = "ntfy"
version = "0.1.0"
edition = "2021"
publish = false

[dependencies]
abi_stable = "=0.11.3"
chrono = "=0.4.45"
