[package]
name = "ibc"
version = "0.1.0"
edition = "2021"
publish = false

[dependencies]
ics23 = "0.10"
tendermint = "0.32"
tendermint-light-client-verifier = "0.32"
ibc-proto = { version = "0.32", default-features = false }
prost = "0.11"
bytes = "1"
subtle-encoding = "0.5"
primitive-types = "0.12"

[dev-dependencies]
tendermint-testgen = "0.32"
