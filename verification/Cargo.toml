[package]
name = "highlight_ez"
version = "0.1.0"
edition = "2021"
publish = false

[dependencies]
anyhow = "1"
git2 = "*"
log = "0.4"
thiserror = "1"
tree-sitter-cli = "0.22"
tree-sitter-config = "0.22"
tree-sitter-highlight = "0.22"
tree-sitter-loader = "0.22"
