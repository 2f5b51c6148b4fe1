[package]
name = "notion_export"
version = "0.1.0"
edition = "2021"
publish = false

[dependencies]
anyhow = "*"
clap = { version = "*", features = ["derive"] }
dialoguer = "*"
notion = "*"
tokio = { version = "*", features = ["full"] }
