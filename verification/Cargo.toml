[package]
name = "post_build_hook_queue"
version = "0.1.0"
edition = "2021"
publish = false

[dependencies]
anyhow = "*"
log = "*"
systemd-journal-logger = "*"
