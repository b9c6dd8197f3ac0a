[package]
name = "gacha_sol"
version = "0.1.0"
edition = "2021"
publish = false

[dependencies]
anchor-lang = "=0.31.2"
anchor-spl = { version = "=0.31.2", default-features = false, features = ["token", "token_2022"] }
bytemuck = "=1.25.2"
spl-pod = "=0.5.1"
spl-token-2022 = { version = "=7.0.0", features = ["no-entrypoint"] }
spl-token-confidential-transfer-ciphertext-arithmetic = "0.2"
spl-token-confidential-transfer-proof-extraction = "0.2"
