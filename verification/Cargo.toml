[package]
name = "codegen_c"
version = "0.1.0"
edition = "2021"
publish = false
