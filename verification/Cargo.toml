[package]
name = "hueflow"
version = "0.1.0"
edition = "2021"
publish = false

[dependencies]
ringbuf = "*"
libloading = "*"
notify = "*"
portmidi = "*"
pulseaudio = "*"
rustfft = "*"
serde = { version = "*", features = ["derive"] }
toml = "*"
