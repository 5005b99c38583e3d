[package]
name = "stats_provider"
version = "0.1.0"
edition = "2021"
publish = false

[dependencies]
sysinfo = "0.31"
sketchybar-rs = "*"
