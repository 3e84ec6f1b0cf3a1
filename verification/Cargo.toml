[package]
name = "sammy"
version = "0.1.0"
edition = "2021"
publish = false

[dependencies]
clap = { version = "*", features = ["derive"] }
serde = { version = "*", features = ["derive"] }
serde_yaml = "*"
termcolor = "*"
tokio = { version = "*", features = ["rt-multi-thread"] }
xdg = "*"
