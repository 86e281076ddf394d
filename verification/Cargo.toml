[package]
name = "maimai_search"
version = "0.1.0"
edition = "2021"
publish = false

[dependencies]
levenshtein = "=1.0.5"
jieba-rs = "=0.6.8"
zhconv = "=0.3.3"
unicode-segmentation = "=1.13.3"
clap = { version = "=4.6.7", features = ["derive"] }
colored = "=2.2.0"
exitcode = "=1.1.2"
log = "=0.4.34"
open = "=5.4.5"
platform-dirs = "=0.3.0"
prettytable-rs = "=0.10.0"
reqwest = { version = "=0.11.27", features = ["blocking", "json"] }
serde = { version = "=1.0.229", features = ["derive"] }
serde_json = "=1.0.154"
serde_yaml = "=0.9.34"
zip = { version = "=0.6.6", default-features = false, features = ["deflate"] }
indicatif = "=0.17.11"
image = { version = "=0.24.9", default-features = false, features = ["png", "jpeg"] }
imageproc = { version = "=0.23.1", default-features = false }
rusttype = "=0.9.3"
lazy_static = "=1.5.1"
tantivy = "=0.21.1"
tantivy-jieba = "=0.10.0"
zstd-sys = "=2.0.9"
