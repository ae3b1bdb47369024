[package]
name = "rust_text_editor"
version = "0.1.0"
edition = "2021"
publish = false

[dependencies]
ropey = "=1.6.1"
uuid = { version = "=1.29.1", features = ["v4", "serde"] }
serde = { version = "=1.0.229", features = ["derive"] }
crossterm = "=0.28.1"
tree-sitter = "0.25"
tree-sitter-rust = "=0.23.3"
