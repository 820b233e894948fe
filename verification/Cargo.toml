[package]
name = "dino"
version = "0.1.0"
edition = "2021"
publish = false

[dependencies]
rand = "0.9"
color-eyre = "0.6"
config = "0.15"
crossterm = "0.29"
display-info = "*"
rodio = "*"
serde = { version = "1", features = ["derive"] }
toml = "*"
