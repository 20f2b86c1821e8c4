[package]
name = "vacuum"
version = "0.1.0"
edition = "2021"
publish = false

[dependencies]
atty = "0.2"
chrono = "0.4"
reqwest = "0.9"
serde = { version = "1", features = ["derive"] }
serde_derive = "1"
structopt = "0.3"
yansi = "0.5"
