[package]
name = "shards_gui"
version = "0.1.0"
edition = "2021"
publish = false

[dependencies]
compile-time-crc32 = "=0.1.2"
egui = "=0.31.1"
