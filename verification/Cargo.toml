[package]
name = "r_git_fu"
version = "0.1.0"
edition = "2021"
publish = false

[dependencies]
chrono = "0.4"
clap = { version = "4", features = ["derive"] }
comfy-table = "7"
git2 = { version = "0.20", default-features = false }
humantime = "2"
owo-colors = "4"
thiserror = "2"
wait-timeout = "0.2"
