[package]
name = "realm_governance"
version = "0.1.0"
edition = "2021"
publish = false

[dependencies]
solana-program = "*"
spl-token = "*"
spl-associated-token-account = "*"
spl-governance-tools = "*"
spl-governance-addin-api = "*"
borsh = { version = "*", features = ["derive"] }
anchor-lang = "*"
anchor-spl = "*"

[dev-dependencies]
base64 = "*"
bs58 = "*"
