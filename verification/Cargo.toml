[package]
name = "bevy_vello"
version = "0.1.0"
edition = "2021"
publish = false

[dependencies]
flate2 = "=1.1.10"
velato = "=0.12.0"
svg_imaging = "=0.0.1"
imaging = "=0.0.1"
usvg = { version = "=0.47.0", default-features = false, features = ["text", "system-fonts"] }
parley = "=0.12.0"
thiserror = "=2.0.21"
tracing = "=0.1.44"
