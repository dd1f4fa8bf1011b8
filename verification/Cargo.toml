[package]
name = "rattler_archive"
version = "0.1.0"
edition = "2021"
publish = false

[dependencies]
bzip2 = "*"
flate2 = "*"
fs-err = "*"
indicatif = "*"
sevenz-rust2 = "*"
tar = "*"
tempfile = "*"
thiserror = "*"
tokio = { version = "*", features = ["rt"] }
url = "*"
xz2 = "*"
zip = "*"
zstd = "*"
