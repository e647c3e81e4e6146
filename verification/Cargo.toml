[package]
name = "refactor-dsl"
version = "0.1.0"
edition = "2021"
publish = false

[dependencies]
regex = "=1.13.1"
similar = "=2.7.0"
dirs = "=7.0.0"
tree-sitter = "=0.25.10"
tree-sitter-rust = "=0.24.2"
tree-sitter-typescript = "=0.23.2"
tree-sitter-python = "=0.25.0"
tree-sitter-go = "=0.25.0"
tree-sitter-java = "=0.23.5"
tree-sitter-c-sharp = "=0.23.5"
tree-sitter-ruby = "=0.23.1"
streaming-iterator = "=0.1.9"
serde = { version = "=1.0.229", features = ["derive"] }
serde_json = "=1.0.154"
serde_yaml = "=0.9.34"
thiserror = "=2.0.21"
anyhow = "=1.0.104"
clap = { version = "=4.6.7", features = ["derive"] }
git2 = { version = "=0.21.0", default-features = false, features = ["cred"] }
lsp-types = "=0.97.0"
url = "=2.5.8"
reqwest = { version = "=0.12.28", default-features = false, features = ["blocking", "json", "rustls-tls"] }
flate2 = "=1.1.10"
tar = "=0.4.46"
zip = { version = "=9.2.2", default-features = false, features = ["deflate"] }
syn = { version = "=2.0.119", features = ["full"] }
quote = "=1.0.47"
proc-macro2 = "=1.0.107"
prettyplease = "=0.2.37"
globset = "0.4"
