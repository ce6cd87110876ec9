[package]
name = "oort"
version = "0.1.0"
edition = "2021"
publish = false

[dependencies]
rand = "0.8"
chrono = "0.4"
nalgebra = "0.29"
rapier2d-f64 = "0.11"
rhai = "1"
log = "0.4"
anyhow = "1"
clap = { version = "4", features = ["derive"] }
env_logger = "0.10"
indicatif = "0.17"
once_cell = "1"
shell-words = "1"
tokio = { version = "1", features = ["macros", "process", "rt-multi-thread"] }
toml = "0.7"
serde_json = "1"
instant = "0.1"
oorandom = "11"
web-sys = { version = "0.3", features = ["Window", "Document", "Element", "HtmlElement", "Storage", "Location", "KeyboardEvent", "WheelEvent", "MouseEvent"] }
wasm-bindgen = "0.2"
wasm-bindgen-futures = "0.4"
js-sys = "0.3"
gloo-utils = "0.1"
reqwasm = "0.5"
