[package]
name = "finfetch"
version = "0.1.0"
edition = "2021"
publish = false

[dependencies]
colored = "2"
whoami = { version = "1", default-features = false }
clap = { version = "4", features = ["derive"] }
confy = "0.6"
serde = "1"
serde_derive = "1"
