[package]
name = "dustbox"
version = "0.1.0"
edition = "2021"
publish = false

[dependencies]
tempdir = "0.3"
tera = "1"
curl = "0.4"
