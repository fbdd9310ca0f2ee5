[package]
name = "tat"
version = "0.1.0"
edition = "2021"
publish = false

[dependencies]
unicode-segmentation = "1"
ratatui = "0.29"
crossterm = "0.28"
cli-clipboard = "0.4"
cli-log = "2"
clap = { version = "4", features = ["derive"] }
gdal = "0.18"
