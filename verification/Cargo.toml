[package]
name = "attestation_derive"
version = "0.1.0"
edition = "2021"
publish = false

[dependencies]
cairo-lang-defs = "=2.6.3"
cairo-lang-diagnostics = "=2.6.3"
cairo-lang-syntax = "=2.6.3"
proc-macro2 = "=1.0.107"
quote = "=1.0.47"
syn = "=2.0.119"
