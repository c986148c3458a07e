[package]
name = "ant_colony"
version = "0.1.0"
edition = "2021"
publish = false

[dependencies]
chrono = { version = "0.4", features = ["serde"] }
rand = "0.8"
serde = { version = "1", features = ["derive"] }
bevy = { version = "0.12", default-features = false }
bevy_turborand = "0.7"
sun-times = "0.2"
gloo-storage = "0.3"
wasm-bindgen = "0.2"
web-sys = { version = "0.3", features = ["Window", "BeforeUnloadEvent", "EventTarget"] }
