[package]
name = "quad-image"
version = "0.1.0"
edition = "2021"
publish = false

[dependencies]
anyhow = "1"
axum = { version = "0.8", features = ["multipart"] }
axum-macros = "0.5"
base64 = "0.22"
gif = "0.13"
hmac = "0.12"
image = { version = "0.25", default-features = false, features = ["bmp", "gif", "hdr", "ico", "jpeg", "png", "pnm", "tga", "tiff", "webp"] }
kamadak-exif = "*"
libc = "0.2"
rand = "0.8"
rayon = "1"
rusqlite = { version = "*", features = ["bundled"] }
serde = { version = "1", features = ["derive"] }
serde_json = "1"
sha2 = "0.10"
tempfile-fast = "*"
tokio = { version = "1", features = ["macros", "net", "rt-multi-thread"] }
tower-http = { version = "0.6", features = ["fs"] }

[dev-dependencies]
regex = "1"
