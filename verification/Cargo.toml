[package]
name = "private_jar"
version = "0.1.0"
edition = "2021"
publish = false

[dependencies]
ring = "*"
rustc-serialize = "*"
aes-gcm = "*"
base64 = "*"
getrandom = "*"
