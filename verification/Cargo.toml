[package]
name = "sound_board"
version = "0.1.0"
edition = "2021"
publish = false

[dependencies]
chrono = "0.4"
config = "0.10"
dirs = "2"
portmidi = "0.2"
rodio = "0.11"
serde = { version = "1", features = ["derive"] }
