[package]
name = "photosort"
version = "0.1.0"
edition = "2021"
publish = false

[dependencies]
kamadak-exif = "*"
zip = "*"
tempfile = "*"
walkdir = "*"
