[package]
name = "ingest_report"
version = "0.1.0"
edition = "2021"
publish = false

[dependencies]
mc-attestation-verifier = "=0.4.4"
mc-sgx-core-types = "*"
curve25519-dalek = "*"
displaydoc = "0.2"
