[package]
name = "notes_store"
version = "0.1.0"
edition = "2021"
publish = false

[dependencies]
rusqlite = { version = "*", features = ["bundled"] }
chrono = { version = "*", default-features = false, features = ["clock", "std"] }
serde = { version = "*", features = ["derive"] }
