[package]
name = "apollog"
version = "0.1.0"
edition = "2021"
publish = false

[dependencies]
dashmap = "*"
tower-lsp = "*"
tree-sitter = "*"
tree-sitter-verilog = "*"
tokio = { version = "*", features = ["io-std", "io-util", "rt-multi-thread", "macros"] }
