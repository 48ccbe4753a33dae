[package]
name = "sbgn_render"
version = "0.1.0"
edition = "2021"
publish = false

[dependencies]
anyhow = "*"
cairo-rs = { version = "*", features = ["svg", "png"] }
clap = { version = "*", features = ["derive"] }
pango = "*"
pangocairo = "*"
roxmltree = "*"
