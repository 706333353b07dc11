[package]
name = "patina_sre"
version = "0.1.0"
edition = "2021"
publish = false

[dependencies]
patina = "=24.1.1"
r-efi = "=7.1.0"
log = "=0.4.35"
