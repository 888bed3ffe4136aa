[package]
name = "spike_mastodon"
version = "0.1.0"
edition = "2021"
publish = false

[dependencies]
anyhow = "*"
directories = "*"
mastodon-async = "*"
tokio = { version = "*", features = ["macros", "rt-multi-thread"] }
webbrowser = "*"
