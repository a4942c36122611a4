[package]
name = "nft_custody"
version = "0.1.0"
edition = "2021"
publish = false

[dependencies]
solana-program = "=1.16.25"
spl-token = { version = "=3.5.0", features = ["no-entrypoint"] }
spl-token-2022 = { version = "=0.6.1", features = ["no-entrypoint"] }
spl-associated-token-account = { version = "=1.1.3", features = ["no-entrypoint"] }
mpl-token-metadata = { version = "=1.12.2", features = ["no-entrypoint"] }
mpl-token-auth-rules = { version = "=1.3.0", features = ["no-entrypoint"] }
borsh = "=0.9.3"
anchor-lang = "=0.28.0"
anchor-spl = "=0.28.0"
