[package]
name = "zellij_worktree"
version = "0.1.0"
edition = "2021"
publish = false

[dependencies]
yansi = "1"
zellij-tile = "*"
