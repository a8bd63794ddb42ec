[package]
name = "enum_to_obj"
version = "0.1.0"
edition = "2021"
publish = false

[dependencies]
swc_core = { version = "*", features = ["ecma_plugin_transform", "ecma_ast", "ecma_visit", "common"] }
