[package]
name = "solana_client_ext"
version = "0.1.0"
edition = "2021"
publish = false

[dependencies]
solana-compute-budget = "2.3"
solana-fee-structure = { version = "2.3", default-features = false }
solana-program-runtime = "2.3"
solana-sdk = "2.3"
solana-svm-callback = "2.3"
solana-svm-feature-set = "2.3"
solana-system-program = "2.3"
