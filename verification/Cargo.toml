[package]
name = "greenbois"
version = "0.1.0"
edition = "2021"
publish = false

[dependencies]
git2 = "=0.21.0"
hex = "=0.4.3"
openssl = "=0.10.81"
rand = "=0.8.8"
time = { version = "=0.3.55", features = ["std"] }
structopt = "=0.3.26"
