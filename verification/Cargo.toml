[package]
name = "layout_carousel_niri"
version = "0.1.0"
edition = "2021"
publish = false

[dependencies]
clap = { version = "*", features = ["derive"] }
clap_complete = "*"
directories = "*"
niri-ipc = "*"
serde = { version = "*", features = ["derive"] }
serde_json = "*"
