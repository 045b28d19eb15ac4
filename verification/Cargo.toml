[package]
name = "chrono_cells"
version = "0.1.0"
edition = "2021"
publish = false

[dependencies]
chrono = { version = "0.4", default-features = false, features = ["std"] }
leptos = { version = "0.6", default-features = false }
