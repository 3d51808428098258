[package]
name = "tower-dns"
version = "0.1.0"
edition = "2021"
publish = false

[dependencies]
futures = "0.1"
tower-service = "0.2"
trust-dns-resolver = "0.10"
