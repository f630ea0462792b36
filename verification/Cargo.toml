[package]
name = "tx_prover"
version = "0.1.0"
edition = "2021"
publish = false

[dependencies]
miden-lib = "0.7"
miden-objects = "0.7"
miden-processor = "0.12"
miden-prover = "0.12"
pingora = { version = "=0.9.0", features = ["lb"] }
tonic = "=0.14.6"
tonic-health = "=0.14.6"
tracing = "=0.1.44"
winter-maybe-async = "=0.10.1"

[dev-dependencies]
miden-objects = { version = "0.7", features = ["testing"] }
