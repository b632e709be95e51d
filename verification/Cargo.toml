[package]
name = "snipix"
version = "0.1.0"
edition = "2021"
publish = false

[dependencies]
cosmwasm-std = "=0.10.1"
cosmwasm-storage = "=0.10.1"
schemars = "=0.7.6"
secret-toolkit = { version = "=0.2.0", default-features = false, features = ["crypto", "permit"] }
serde = { version = "1.0", default-features = false, features = ["derive"] }
