[package]
name = "sleep_on_lan"
version = "0.1.0"
edition = "2021"
publish = false

[dependencies]
clap = { version = "*", features = ["derive"] }
pnet = "*"
tokio = { version = "*", features = ["macros", "net", "rt-multi-thread"] }
