[package]
name = "city_points"
version = "0.1.0"
edition = "2021"
publish = false

[dependencies]
bincode = "1"
crossterm = "0.27"
csv = "1"
nalgebra = "0.32"
ratatui = "0.26"
serde = { version = "1", features = ["derive"] }
