[package]
name = "platform_sim"
version = "0.1.0"
edition = "2021"
publish = false

[dependencies]
rand = "=0.8.8"
bevy = { version = "=0.16.1", default-features = false, features = ["bevy_pbr", "bevy_winit", "x11"] }
wasm-bindgen = "=0.2.129"
