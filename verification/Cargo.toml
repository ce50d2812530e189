[package]
name = "hollowcheck"
version = "0.1.0"
edition = "2021"
publish = false

[dependencies]
regex = "=1.13.1"
globset = "=0.4.21"
serde = { version = "=1.0.229", features = ["derive"] }
serde_json = "=1.0.154"
serde_yaml = "=0.9.34"
walkdir = "=2.5.0"
anyhow = "=1.0.104"
clap = { version = "=4.6.7", features = ["derive"] }
colored = "=2.2.0"
directories = "=5.0.1"
tree-sitter = "=0.24.7"
tree-sitter-go = "=0.23.4"
tree-sitter-python = "=0.23.6"
tree-sitter-rust = "=0.23.3"
tree-sitter-javascript = "=0.23.1"
tree-sitter-typescript = "=0.23.2"
tree-sitter-java = "=0.23.5"
tree-sitter-c = "=0.23.4"
tree-sitter-cpp = "=0.23.4"
tree-sitter-scala = "=0.23.4"
tree-sitter-swift = "=0.6.0"
streaming-iterator = "=0.1.9"
