[package]
name = "nss_doh"
version = "0.1.0"
edition = "2021"
publish = false

[dependencies]
failure = "0.1"
libc = "0.2"
rustls = "0.16"
trust-dns = { version = "0.17", default-features = false, features = ["dns-over-https-rustls"] }
