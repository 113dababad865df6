[package]
name = "isochron"
version = "0.1.0"
edition = "2021"
publish = false

[dependencies]
heapless = "0.8"
serde = { version = "1", default-features = false, features = ["derive"] }
sequential-storage = "3"
embedded-hal-async = "1"
embedded-storage-async = "0.4"
