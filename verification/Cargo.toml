[package]
name = "tringlib"
version = "0.1.0"
edition = "2021"
publish = false

[dependencies]
anyhow = "1"
env_logger = "*"
jni = "0.21"
libc = "0.2"
log = "0.4"
