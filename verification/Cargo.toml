[package]
name = "metaplex-nft-packs"
version = "0.1.0"
edition = "2021"
publish = false

[dependencies]
borsh = "0.9"
solana-program = "~1.18"
spl-token = "=4.0.0"
