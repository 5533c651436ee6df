[package]
name = "easybite"
version = "0.1.0"
edition = "2021"
publish = false

[dependencies]
chrono = "=0.4.45"
serde_json = "=1.0.154"
uuid = { version = "=1.29.1", features = ["v4"] }
rfd = "=0.17.2"
plotters = { version = "=0.3.7", default-features = false, features = ["bitmap_backend", "bitmap_encoder", "all_series", "all_elements", "full_palette"] }
image = { version = "=0.25.10", default-features = false, features = ["png"] }
minifb = { version = "=0.29.0", default-features = false, features = ["x11"] }
eframe = { version = "*", default-features = false, features = ["glow", "x11", "default_fonts"] }
