[package]
name = "github-webhook-type-generator"
version = "0.1.0"
edition = "2021"
publish = false

[dependencies]
proc-macro2 = "=1.0.107"
swc_common = { version = "=26.0.0", features = ["tty-emitter"] }
swc_ecma_ast = "=29.0.2"
swc_ecma_parser = "=46.1.2"
clap = { version = "=4.6.7", features = ["derive"] }
minreq = { version = "=2.14.1", features = ["https"] }
anyhow = "=1.0.104"
