[package]
name = "noise_player"
version = "0.1.0"
edition = "2021"
publish = false

[dependencies]
iced = { version = "=0.12.1", default-features = false }
iced_aw = { version = "=0.9.3", default-features = false, features = ["wrap"] }
kira = { version = "=0.8.7", default-features = false, features = ["ogg"] }
walkdir = "=2.5.0"
