[package]
name = "lbug"
version = "0.1.0"
edition = "2021"
publish = false

[dependencies]
cmake = "0.1"
cxx-build = "1.0"
rustversion = "1.0"
vcpkg = "0.2"
