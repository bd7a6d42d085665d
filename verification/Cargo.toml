[package]
name = "typst_pdf"
version = "0.1.0"
edition = "2021"
publish = false

[dependencies]
typst-library = "=0.13.1"
krilla = "=0.8.2"
krilla-svg = "=0.8.1"
bytemuck = { version = "=1.25.2", features = ["derive"] }
image = { version = "=0.25.10", default-features = false, features = ["png"] }
usvg = "=0.47.0"

[dev-dependencies]
typst-assets = { version = "=0.13.1", features = ["fonts"] }
