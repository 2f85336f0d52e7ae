[package]
name = "screeps_tasks"
version = "0.1.0"
edition = "2021"
publish = false

[dependencies]
screeps-game-api = "*"
wasm-bindgen = "*"
log = "*"
serde = { version = "*", features = ["derive"] }
