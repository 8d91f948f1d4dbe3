[package]
name = "iconic"
version = "0.1.0"
edition = "2021"
publish = false

[dependencies]
hex = "=0.4.3"
image = { version = "=0.25.10", default-features = false, features = ["png", "jpeg", "tiff", "webp"] }
serde = { version = "=1.0.229", features = ["derive"] }
serde_json = "=1.0.154"
thiserror = "=2.0.21"
log = "=0.4.35"
uuid = { version = "=1.29.0", features = ["v7"] }
xmp_toolkit = "=1.12.1"
gtk4 = "=0.11.5"
libadwaita = "=0.9.2"
gio = "=0.22.10"
glib = "=0.22.10"
gdk4 = "=0.11.5"
gettext-rs = "=0.8.0"
async-channel = "=2.5.0"
resvg = "=0.49.0"
usvg = "=0.49.0"
cairo-rs = "=0.22.9"
random_str = "*"
librsvg = "*"
