[package]
name = "rozo_intents"
version = "0.1.0"
edition = "2021"
publish = false

[dependencies]
sha2 = "*"
soroban-sdk = "*"
