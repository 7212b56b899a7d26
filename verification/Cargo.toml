[package]
name = "outpost"
version = "0.1.0"
edition = "2021"
publish = false

[dependencies]
base64 = "0.21"
nanoid = "0.4"
rand = "0.8"
rand_core = "0.6"
rand_pcg = "0.3"
serde = { version = "1", features = ["derive"] }
serde_json = "1"
tui = "0.19"
crossterm = "0.25"
catppuccin = "1"
