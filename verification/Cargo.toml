[package]
name = "bubblegum"
version = "0.1.0"
edition = "2021"
publish = false

[dependencies]
anchor-lang = "0.25.0"
mpl-token-metadata = { version = "1", features = ["no-entrypoint"] }
