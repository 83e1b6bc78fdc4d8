[package]
name = "shader_doc_ir"
version = "0.1.0"
edition = "2021"
publish = false

[dependencies]
naga = "=0.13.0"
