[package]
name = "caml_vector"
version = "0.1.0"
edition = "2021"
publish = false

[dependencies]
ocaml = { version = "=0.18.1", default-features = false, features = ["docs-rs"] }
