[package]
name = "glsl_interpreter"
version = "0.1.0"
edition = "2021"
publish = false

[dependencies]
pest = "2"
pest_derive = "2"
serde_json = "1"
