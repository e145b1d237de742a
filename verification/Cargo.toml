[package]
name = "investment_vault"
version = "1.0.0"
edition = "2021"
publish = false

[dependencies]
soroban-sdk = "=26.1.1"
stellar-access = "=0.7.3"
stellar-macros = "=0.7.3"
stellar-tokens = "=0.7.3"
