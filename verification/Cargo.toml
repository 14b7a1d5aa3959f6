[package]
name = "folder_locker"
version = "0.1.0"
edition = "2021"
publish = false

[dependencies]
bcrypt = "*"
clap = { version = "*", features = ["derive"] }
colored = "*"
dialoguer = "*"
indicatif = "*"
log = "*"
