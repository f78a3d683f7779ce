[package]
name = "schema_derive"
version = "0.1.0"
edition = "2021"
publish = false

[dependencies]
proc-macro2 = "=1.0.107"
quote = "=1.0.47"
serde_derive_internals = "=0.26.0"
syn = "1"
