[package]
name = "globed_game_server"
version = "0.1.0"
edition = "2021"
publish = false

[dependencies]
anyhow = "1"
bytebuffer = "2"
crypto_box = { version = "0.9", features = ["chacha20"] }
ctrlc = "3"
log = "0.4"
reqwest = { version = "0.11", default-features = false }
tokio = { version = "1", features = ["rt-multi-thread", "macros", "sync", "time", "net"] }
