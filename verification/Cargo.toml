[package]
name = "arena_fighter"
version = "0.1.0"
edition = "2021"
publish = false

[dependencies]
arrayvec = "0.7"
bevy = { version = "0.17", default-features = false }
