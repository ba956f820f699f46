[package]
name = "rbxlx_to_rojo"
version = "0.1.0"
edition = "2021"
publish = false

[dependencies]
rbx_dom_weak = "3"
rbx_xml = "1"
rbx_binary = "1"
serde = { version = "1", features = ["derive"] }
serde_json = "1"
eframe = { version = "0.31", default-features = false, features = ["glow", "x11", "default_fonts"] }
rfd = { version = "0.15", default-features = false, features = ["xdg-portal", "tokio"] }
