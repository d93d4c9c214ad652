[package]
name = "pokedex"
version = "0.1.0"
edition = "2021"
publish = false

[dependencies]
rouille = "*"
serde = { version = "*", features = ["derive"] }
