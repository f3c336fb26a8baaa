[package]
name = "shape_mesh"
version = "0.1.0"
edition = "2021"
publish = false

[dependencies]
lyon_tessellation = "0.17"
euclid = "0.22"
