[package]
name = "fast_rich"
version = "0.1.0"
edition = "2021"
publish = false

[dependencies]
unicode-width = "*"
unicode-bidi = "*"
ar-reshaper = "*"
regex = "*"
crossterm = "*"
serde = "*"
serde_json = "*"
pulldown-cmark = "*"
