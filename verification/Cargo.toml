[package]
name = "pls"
version = "0.1.8"
edition = "2021"
publish = false

[dependencies]
url = "*"
clap = { version = "*", features = ["derive"] }
colored = "*"
dirs = "*"
indicatif = "*"
reqwest = { version = "*", default-features = false, features = ["blocking"] }
tar = "*"
terminal_size = "*"
xz2 = "*"
zip = { version = "*", default-features = false }
