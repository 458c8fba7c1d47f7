[package]
name = "lsp_dispatch"
version = "0.1.0"
edition = "2021"
publish = false

[dependencies]
serde = { version = "1", features = ["derive"] }
serde_json = "1"
clap = { version = "3", features = ["derive"] }
lsp-server = "0.7"
lsp-types = "0.94"
