[package]
name = "turbopack_mdx"
version = "0.1.0"
edition = "2021"
publish = false

[dependencies]
mdxjs = "=1.0.4"
serde = "=1.0.210"
