[package]
name = "dsk"
version = "0.1.0"
edition = "2021"
publish = false

[dependencies]
jwalk = "*"
shellexpand = "*"
notify = "*"
clap = { version = "*", features = ["derive"] }
colored = "*"
