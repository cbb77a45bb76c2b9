[package]
name = "battery_watch"
version = "0.1.0"
edition = "2021"
publish = false

[dependencies]
anyhow = "1"
clap = { version = "4", features = ["derive"] }
humantime = "2"
serde = { version = "1", features = ["derive"] }
serde_json = "1"
textwrap = { version = "0.16", features = ["terminal_size"] }
tokio = { version = "1", features = ["macros", "rt-multi-thread", "signal", "time"] }
tokio-stream = "0.1"
upower_dbus = "0.3"
zbus = "3"
