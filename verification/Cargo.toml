[package]
name = "photos_norm"
version = "0.1.0"
edition = "2021"
publish = false

[dependencies]
chrono = { version = "0.4", default-features = false, features = ["std"] }
little_exif = "*"
sanitise-file-name = "*"
infer = "*"
image = { version = "*", default-features = false, features = ["jpeg", "png", "gif", "bmp", "tiff", "webp"] }
clap = { version = "4", features = ["derive"] }
clap-markdown = "*"
colored = "*"
