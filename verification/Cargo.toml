[package]
name = "proxy_grid"
version = "0.1.0"
edition = "2021"
publish = false

[dependencies]
image = "*"
printpdf = { version = "0.7", features = ["embedded_images"] }
anyhow = "*"
clap = { version = "*", features = ["derive"] }
csv = "*"
reqwest = { version = "*", default-features = false, features = ["blocking", "json"] }
serde = { version = "*", features = ["derive"] }
serde_json = "*"
