[package]
name = "brlog"
version = "0.1.0"
edition = "2021"
publish = false

[dependencies]
chrono = "=0.4.45"
unic-langid = { version = "=0.9.6", features = ["macros"] }
anyhow = "=1.0.104"
arc-swap = "=1.9.3"
dirs = "=7.0.0"
i18n-embed = { version = "=0.16.0", features = ["fluent-system"] }
iced = { version = "=0.14.0", default-features = false, features = ["tiny-skia", "x11", "tokio", "crisp"] }
once_cell = "=1.21.4"
rusqlite = { version = "=0.41.1", features = ["bundled"] }
rust-embed = "=8.13.0"
serde = { version = "=1.0.229", features = ["derive"] }
sys-locale = "=0.3.2"
toml = "=1.1.8"
windows-sys = { version = "=0.61.2", features = ["Win32_Foundation", "Win32_Graphics_Dwm"] }
