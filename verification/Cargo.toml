[package]
name = "osu_data_loader"
version = "0.1.0"
edition = "2021"
publish = false

[dependencies]
chrono = { version = "0.4", features = ["serde"] }
futures = "0.3"
osynic_osudb = "0.1.5"
serde = { version = "1", features = ["derive"] }
tauri = { version = "2", default-features = false }
