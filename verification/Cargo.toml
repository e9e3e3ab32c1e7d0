[package]
name = "image_probe"
version = "0.1.0"
edition = "2021"
publish = false

[dependencies]
kamadak-exif = "*"
imagesize = "*"
