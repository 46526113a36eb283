[package]
name = "tradestars_arena"
version = "0.1.0"
edition = "2021"
publish = false

[dependencies]
anchor-lang = { version = "=0.31.2", features = ["init-if-needed"] }
anchor-spl = { version = "=0.31.2", features = ["token_2022", "token_2022_extensions", "associated_token"] }
solana-keccak-hasher = "=2.2.1"
spl-token-2022 = { version = "=6.0.0", features = ["no-entrypoint"] }
