[package]
name = "typed_ast"
version = "0.1.0"
edition = "2021"
publish = false

[dependencies]
anyhow = "*"
bcs = "*"
coerce = "*"
lazy_static = "*"
tempfile = "*"
tracing = "*"
tracing-subscriber = "*"
