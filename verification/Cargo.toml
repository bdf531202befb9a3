[package]
name = "hir_ty"
version = "0.1.0"
edition = "2021"
publish = false

[dependencies]
chalk-ir = "0.68"
chalk-solve = { version = "0.68", default-features = false }
