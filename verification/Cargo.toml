[package]
name = "sem_safe"
version = "0.1.0"
edition = "2021"
publish = false

[dependencies]
libc = "0.2"
getrandom = "0.2"
base64 = "*"
errno = "*"
