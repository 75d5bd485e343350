[package]
name = "pam_rc2022"
version = "0.1.0"
edition = "2021"
publish = false

[dependencies]
curl = "0.4"
