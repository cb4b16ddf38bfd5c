[package]
name = "spotify_polybar"
version = "0.1.0"
edition = "2021"
publish = false

[dependencies]
rspotify = { version = "=0.16.1", features = ["cli"] }
tokio = { version = "=1.53.2", features = ["macros", "rt-multi-thread"] }
