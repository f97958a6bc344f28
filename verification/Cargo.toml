[package]
name = "utu"
version = "0.1.0"
edition = "2021"
publish = false

[dependencies]
gtk4 = { version = "0.9", features = ["v4_12"] }
relm4 = { version = "0.9", features = ["libadwaita", "gnome_46"] }
rust-i18n = "3"
serde = { version = "1", features = ["derive"] }
serde_json = "1"
tokio = { version = "1", features = ["full"] }
tracing = "0.1"
zbus = "5"
evdev = { version = "0.13", features = ["tokio"] }
directories = "6"
