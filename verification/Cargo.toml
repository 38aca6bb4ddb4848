[package]
name = "wayeyes"
version = "0.2.0"
edition = "2021"
publish = false

[dependencies]
anyhow = "=1.0.104"
ashpd = { version = "=0.13.13", features = ["screencast"] }
clap = { version = "=4.6.7", features = ["derive"] }
gtk4 = "=0.11.5"
pipewire = "=0.10.1"
tokio = { version = "=1.54.1", features = ["rt"] }
tracing = "=0.1.44"
tracing-subscriber = { version = "=0.3.23", features = ["env-filter"] }
wayland-client = "=0.31.15"
wayland-protocols = { version = "=0.32.13", features = ["client", "staging", "unstable"] }
