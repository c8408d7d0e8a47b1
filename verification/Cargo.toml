[package]
name = "wishget"
version = "0.1.0"
edition = "2021"
publish = false

[dependencies]
url = "2"
regex = "1"
rust-strings = "*"
json = "0.12"
anyhow = "1"
clap = { version = "4", features = ["derive"] }
colored = "*"
glob = "0.3"
directories = "*"
log = "0.4"
log_buffer = "*"
simplelog = "*"
spinoff = "*"
strum = { version = "*", features = ["derive"] }
open = "*"
copypasta-ext = "*"
reqwest = { version = "0.12", default-features = false, features = ["blocking", "rustls-tls"] }
