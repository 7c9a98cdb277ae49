[package]
name = "rmus"
version = "0.1.0"
edition = "2021"
publish = false

[dependencies]
audiotags = "*"
crossterm = "0.25"
home = "0.5"
reqwest = { version = "0.11", default-features = false, features = ["blocking", "rustls-tls"] }
rodio = "0.17"
serde = { version = "1", features = ["derive"] }
serde_json = "1"
tui = "0.19"
