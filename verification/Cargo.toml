[package]
name = "dotnet_hostfxr"
version = "0.1.0"
edition = "2021"
publish = false

[dependencies]
libloading = "*"
