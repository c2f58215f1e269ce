[package]
name = "tattoy"
version = "0.1.0"
edition = "2021"
publish = false

[dependencies]
tattoy-wezterm-term = "=0.1.0-fork.5"
tattoy-termwiz = "=0.24.0-fork.2"
tokio = { version = "=1.54.1", features = ["sync", "rt", "rt-multi-thread", "macros", "time"] }
tracing = "=0.1.44"
snafu = "=0.8.9"
color-eyre = "=0.6.5"
toml = "=0.8.23"
serde = { version = "=1.0.229", features = ["derive"] }
dirs = "=7.0.0"
notify = "=8.2.1"
tempfile = "=3.27.0"
glam = "=0.34.1"
