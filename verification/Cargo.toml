[package]
name = "ploirc"
version = "0.1.0"
edition = "2021"
publish = false

[dependencies]
encoding = "0.2"
failure = "0.1"
native-tls = "0.2"
