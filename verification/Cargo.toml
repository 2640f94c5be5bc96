[package]
name = "solanaroll"
version = "0.1.0"
edition = "2021"
publish = false

[dependencies]
byteorder = "=1.5.0"
solana-program = "=5.1.0"
spl-token = { version = "=9.0.0", features = ["no-entrypoint"] }
thiserror = "=1.0.69"
num-derive = "=0.4.2"
num-traits = "=0.2.19"
