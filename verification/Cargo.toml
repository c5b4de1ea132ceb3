[package]
name = "rpi_fft"
version = "0.1.0"
edition = "2021"
publish = false

[dependencies]
chrono = "=0.4.45"
circular-buffer = "=1.2.1"
concurrent-queue = "=2.5.0"
heapless = "=0.9.3"
indexmap = { version = "=2.14.2", features = ["serde"] }
log = "=0.4.35"
num = "=0.4.3"
once_cell = "=1.21.4"
rustfft = "=6.4.1"
serde = { version = "=1.0.229", features = ["derive"] }
serde_json = "=1.0.154"
serde_with = "=3.24.0"
serde_yaml = "=0.9.34"
snap7-sys = "=0.1.5"
env_logger = "=0.11.11"
egui = "*"
egui_plot = "*"
eframe = { version = "*", default-features = false, features = ["glow", "default_fonts", "x11"] }
