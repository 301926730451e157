[package]
name = "pam"
version = "0.1.0"
edition = "2021"
publish = false

[dependencies]
users = "=0.11.0"
libc = "=0.2.190"
