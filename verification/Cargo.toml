[package]
name = "zermelo_cli"
version = "0.1.0"
edition = "2021"
publish = false

[dependencies]
chrono = "=0.4.45"
clap = "=2.34.0"
termcolor = "=1.4.1"
toml = "=0.5.11"
serde = "=1.0.229"
serde_derive = "=1.0.229"
