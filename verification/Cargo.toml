[package]
name = "lib"
version = "0.1.0"
edition = "2021"
publish = false

[dependencies]
iced-x86 = { version = "=1.22.0", default-features = false, features = ["std", "decoder"] }
addr2line = "0.20"
gimli = "0.27"
object = "0.31"
