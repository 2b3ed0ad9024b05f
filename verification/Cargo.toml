[package]
name = "libnet"
version = "0.1.0"
edition = "2021"
publish = false

[dependencies]
etherparse = "*"
simple-dns = "*"
libc = "*"
linux-syscall = "*"
log = "*"
android_logger = "*"
uniffi = "*"
