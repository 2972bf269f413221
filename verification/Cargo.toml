[package]
name = "volo_ai"
version = "0.1.0"
edition = "2021"
publish = false

[dependencies]
screeps-game-api = "*"
regex = "1"
rand = "0.8"
log = "0.4"
serde = { version = "1", features = ["derive"] }
arrayvec = "0.5"
smallvec = "1"
itertools = "*"
enum_dispatch = "0.3"
wasm-bindgen = "0.2"
