[package]
name = "ft_otp"
version = "0.1.0"
edition = "2021"
publish = false

[dependencies]
sha1 = "0.10"
hex = "0.4"
magic-crypt = "4"
base32 = "0.5"
rand = "0.8"
rand_chacha = "0.3"
rand_core = "0.6"
clap = "4"
qrcode = "0.14"
image = { version = "0.25", default-features = false, features = ["png"] }
