[package]
name = "runtime_host"
version = "0.1.0"
edition = "2021"
publish = false

[dependencies]
async-trait = "=0.1.92"
oasis-cbor = "=0.5.1"
oasis-cbor-value = "=0.5.1"
thiserror = "=1.0.69"
