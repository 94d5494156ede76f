[package]
name = "locutus_node"
version = "0.1.0"
edition = "2021"
publish = false

[dependencies]
semver = "1"
clap = { version = "4", features = ["derive"] }
async-trait = "0.1"
chrono = "0.4"
once_cell = "1"
rsa = "0.9"
dioxus = { version = "0.4", default-features = false, features = ["macro", "html", "hooks"] }
