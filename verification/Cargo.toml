[package]
name = "zone_authority"
version = "0.1.0"
edition = "2021"
publish = false

[dependencies]
trust-dns-resolver = "*"
