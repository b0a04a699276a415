[package]
name = "gotify2matrix"
version = "0.1.0"
edition = "2021"
publish = false

[dependencies]
handlebars = "=6.4.4"
anyhow = "*"
dirs = "*"
envy = "*"
futures-util = "*"
gotify = { version = "=0.4.0", features = ["client"] }
matrix-sdk = { version = "0.7", default-features = false, features = ["sqlite", "native-tls"] }
rand = "*"
serde = { version = "*", features = ["derive"] }
serde_json = "*"
structopt = "*"
tokio = { version = "*", features = ["rt-multi-thread", "macros", "time", "fs"] }
toml = "*"
tracing = "*"
tracing-subscriber = "*"
url = { version = "*", features = ["serde"] }
