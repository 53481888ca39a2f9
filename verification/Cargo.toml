[package]
name = "wvr_script"
version = "0.1.0"
edition = "2021"
publish = false

[dependencies]
anyhow = "1"
notify = "4"
rand = "0.8"
rhai = "1"
