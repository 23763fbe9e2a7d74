[package]
name = "walkplay"
version = "0.1.0"
edition = "2021"
publish = false

[dependencies]
jwalk = "0.8"
mio = { version = "1", features = ["os-poll", "os-ext"] }
rodio = "0.19"
termion = "2"
