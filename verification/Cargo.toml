[package]
name = "tsu"
version = "0.1.0"
edition = "2021"
publish = false

[dependencies]
dark-light = "*"
serde = { version = "*", features = ["derive"] }
serde_json = "*"
toml = "*"
seahash = "*"
rand = "*"
rand_chacha = "*"
palette = "*"
clap = { version = "*", features = ["derive"] }
dirs-next = "*"
open = "*"
