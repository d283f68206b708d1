[package]
name = "radiofm"
version = "0.1.0"
edition = "2021"
publish = false

[dependencies]
anyhow = "1"
crossterm = "0.28"
directories = "5"
num-complex = "0.4"
rand = "0.8"
ratatui = { version = "0.29", default-features = false, features = ["crossterm"] }
reqwest = { version = "0.12", default-features = false, features = ["blocking"] }
rodio = { version = "0.20", default-features = false, features = ["symphonia-mp3"] }
serde = { version = "1", features = ["derive"] }
toml = "0.8"
