[package]
name = "pizzatopia"
version = "0.1.0"
edition = "2021"
publish = false

[dependencies]
amethyst = { version = "0.15", default-features = false, features = ["animation", "audio", "renderer"] }
derivative = "2"
log = "0.4"
noisy_float = "0.1"
num-traits = "0.2"
rand = "0.7"
ron = "0.6"
rstar = "0.8"
serde = { version = "1", features = ["derive"] }
ultraviolet = "0.5"
