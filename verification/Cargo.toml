[package]
name = "pixelsnap"
version = "0.1.0"
edition = "2021"
publish = false

[dependencies]
fontdue = "*"
memmap2 = "*"
rustix = { version = "*", features = ["fs"] }
smithay-client-toolkit = { version = "*", default-features = false }
tiny-skia = { version = "*", default-features = false, features = ["std"] }
wayland-client = "*"
wayland-protocols = { version = "*", features = ["client"] }
wayland-protocols-wlr = { version = "*", features = ["client"] }
