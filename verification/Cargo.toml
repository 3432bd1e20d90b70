[package]
name = "xesite"
version = "0.1.0"
edition = "2021"
publish = false

[dependencies]
chrono = "0.4"
color-eyre = "*"
dirs = "*"
jsonfeed = "*"
patreon = "*"
serde = { version = "1", features = ["derive"] }
serde_dhall = { version = "*", default-features = false }
sitemap = "*"
tracing = "0.1"
