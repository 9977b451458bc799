[package]
name = "fbx_sanitizer"
version = "0.1.0"
edition = "2021"
publish = false

[dependencies]
anyhow = "*"
fbxcel-dom = "*"
