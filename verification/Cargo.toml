[package]
name = "katex"
version = "0.1.0"
edition = "2021"
publish = false

[dependencies]
anyhow = "*"
atty = "*"
axum = "*"
camino = "*"
clap = { version = "*", features = ["derive"] }
color-eyre = "*"
console = "*"
futures = "*"
image = "*"
indicatif = "*"
json5 = "*"
regex = "*"
serde = { version = "*", features = ["derive"] }
serde_json = "*"
serde_yaml = "*"
strum_macros = "*"
thirtyfour = "*"
tokio = { version = "*", features = ["full"] }
tower-http = { version = "*", features = ["fs"] }
url = "*"
