[package]
name = "media_thumb"
version = "0.1.0"
edition = "2021"
publish = false

[dependencies]
actix-files = "=0.6.10"
actix-web = { version = "=4.18.1", default-features = false, features = ["macros"] }
anyhow = "=1.0.104"
bytemuck = "=1.25.2"
clap = { version = "=4.6.7", features = ["derive"] }
env_logger = "=0.11.11"
ffmpeg-next = "=9.0.0"
httpdate = "=1.0.3"
image = { version = "=0.25.10", default-features = false, features = ["bmp", "dds", "exr", "ff", "gif", "hdr", "ico", "jpeg", "png", "pnm", "qoi", "tga", "tiff", "webp"] }
imageproc = { version = "=0.27.0", default-features = false }
log = "=0.4.34"
psd = "=0.3.5"
scopeguard = "=1.2.0"
thiserror = "=2.0.21"
webp = "=0.3.1"
