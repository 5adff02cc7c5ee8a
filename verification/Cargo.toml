[package]
name = "m64_movie"
version = "0.1.0"
edition = "2021"
publish = false

[dependencies]
binrw = "*"
fixedstr = "*"
thiserror = "*"
