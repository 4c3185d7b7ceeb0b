[package]
name = "bin_wrapper"
version = "0.1.0"
edition = "2021"
publish = false

[dependencies]
atty = "*"
log = "*"
pretty_env_logger = "*"
slog = "*"
slog-async = "*"
slog-term = "*"
structopt = "*"
