[package]
name = "presence_lsp"
version = "0.1.0"
edition = "2021"
publish = false

[dependencies]
discord-rich-presence = "=0.2.5"
tokio = { version = "=1.54.1", features = ["io-std", "macros", "rt-multi-thread", "sync"] }
tower-lsp = "=0.20.0"
tracing = "=0.1.44"
