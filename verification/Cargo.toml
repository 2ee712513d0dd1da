[package]
name = "release_packer"
version = "0.1.0"
edition = "2021"
publish = false

[dependencies]
anyhow = "1"
data-encoding = "2"
env_logger = "0.11"
flate2 = "1"
log = "0.4"
sha2 = "0.10"
tar = "0.4"
