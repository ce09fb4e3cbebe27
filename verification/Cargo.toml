[package]
name = "youtube_chapter_splitter"
version = "0.15.12"
edition = "2021"
publish = false

[dependencies]
time = "=0.3.55"
clap = { version = "=4.6.7", features = ["derive"] }
colored = "=2.2.0"
dirs = "=5.0.1"
serde = { version = "=1.0.229", features = ["derive"] }
serde_json = "=1.0.154"
toml = "=0.8.23"
log = "=0.4.35"
indicatif = "=0.17.11"
lofty = "=0.22.4"
ureq = "=2.12.1"
shellexpand = "=3.1.2"
regex = "1"
