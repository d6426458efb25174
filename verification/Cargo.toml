[package]
name = "book_counter"
version = "0.1.0"
edition = "2021"
publish = false

[dependencies]
chrono = { version = "0.4", features = ["serde"] }
reqwest = { version = "0.11", default-features = false, features = ["json"] }
serde = { version = "1", features = ["derive"] }
web-sys = { version = "0.3", features = ["Window", "Location", "console"] }
yew = "0.19"
yew-router = "0.16"

[dev-dependencies]
serde_json = "1"
