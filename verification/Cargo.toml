[package]
name = "workflows"
version = "0.1.0"
edition = "2021"
publish = false

[dependencies]
casual = "*"
colored = "*"
dirs = "*"
fzf-wrapped = "*"
serde = { version = "1", features = ["derive"] }
toml = "*"
which = "*"
