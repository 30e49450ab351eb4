[package]
name = "martini"
version = "0.1.0"
edition = "2021"
publish = false

[dependencies]
clap = { version = "=4.6.7", features = ["derive"] }
serde = { version = "=1.0.229", features = ["derive"] }
serde_json = "=1.0.154"
thiserror = "=2.0.21"
tracing = "=0.1.44"
tracing-subscriber = "=0.3.23"
indicatif = "=0.18.6"
rayon = "=1.12.0"
glob = "=0.3.4"
image = { version = "=0.25.10", default-features = false, features = ["png", "jpeg", "webp", "ico"] }
imgref = "=1.12.3"
ico = "=0.6.0"
resvg = "=0.49.0"
webp = "=0.3.1"
ravif = { version = "=0.13.0", default-features = false, features = ["threading"] }
pdfium-render = "=0.8.37"
pdfium-auto = "=0.3.1"
docx-rs = "=0.4.22"
pulldown-cmark = "=0.12.2"
