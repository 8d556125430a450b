[package]
name = "octopat"
version = "0.2.0"
edition = "2021"
publish = false

[dependencies]
anyhow = "1"
clipboard = "0.5"
colored = "2"
dialoguer = "0.11"
hyper = { version = "0.14", features = ["http1", "server", "tcp"] }
keyring = "3"
opener = "0.7"
reqwest = { version = "0.12", default-features = false, features = ["json"] }
serde = { version = "1", features = ["derive"] }
serde_json = "1"
structopt = "0.3"
tokio = { version = "1", features = ["macros", "net", "rt-multi-thread", "sync"] }
url = "2"
