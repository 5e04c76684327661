[package]
name = "pgterm"
version = "0.1.0"
edition = "2021"
publish = false

[dependencies]
anyhow = "*"
crossterm = "*"
ratatui = "0.30"
ratatui-textarea = "*"
sqlx = { version = "*", default-features = false, features = ["runtime-tokio", "postgres"] }
sqlx-postgres = "*"
tokio = { version = "*", features = ["full"] }
tree-sitter = "*"
tree-sitter-highlight = "*"
tree-sitter-sequel = "*"
