[package]
name = "asset_dumper"
version = "0.1.0"
edition = "2021"
publish = false

[dependencies]
anyhow = "*"
brotli = "*"
clap = { version = "*", features = ["derive"] }
memmap2 = "*"
object = "*"
