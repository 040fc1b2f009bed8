[package]
name = "tree-painter"
version = "0.1.0"
edition = "2021"
publish = false

[dependencies]
anyhow = "=1.0.104"
thiserror = "=1.0.69"
clap = { version = "=4.6.7", features = ["derive"] }
toml = "=0.5.11"
tree-sitter-highlight = "=0.20.1"
tree-sitter-c = "=0.20.8"
tree-sitter-c-sharp = "=0.20.0"
tree-sitter-cpp = "=0.20.5"
tree-sitter-css = "=0.20.0"
tree-sitter-dockerfile = "=0.1.0"
tree-sitter-go = "=0.20.0"
tree-sitter-haskell = "=0.15.0"
tree-sitter-java = "=0.20.2"
tree-sitter-javascript = "=0.20.4"
tree-sitter-json = "=0.20.2"
tree-sitter-kotlin = "=0.2.11"
tree-sitter-lua = "=0.0.19"
tree-sitter-md = "=0.1.7"
tree-sitter-nix = "=0.0.1"
tree-sitter-ocaml = "=0.20.4"
tree-sitter-python = "=0.20.4"
tree-sitter-rust = "=0.20.4"
tree-sitter-typescript = "=0.20.5"
