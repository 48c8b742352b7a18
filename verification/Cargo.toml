[package]
name = "my_token_program"
version = "0.1.0"
edition = "2021"
publish = false

[dependencies]
solana-program = "*"
spl-pod = "*"
spl-tlv-account-resolution = "*"
spl-transfer-hook-interface = "*"
spl-token = "*"
spl-token-2022 = "*"
mpl-token-metadata = "*"
