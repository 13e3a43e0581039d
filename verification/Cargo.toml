[package]
name = "legaldid"
version = "0.1.0"
edition = "2021"
publish = false

[dependencies]
anchor-lang = { version = "0.31", features = ["init-if-needed"] }
anchor-spl = "0.31"
mpl-token-metadata = "5"
sha2 = "0.10"
solana-attestation-service-client = "1"
spl-associated-token-account = { version = "6", features = ["no-entrypoint"] }
spl-token-2022 = { version = "6", features = ["no-entrypoint"] }
spl-token-group-interface = "0.5"
spl-token-metadata-interface = "0.6"
