[package]
name = "x86jit-core"
version = "0.1.0"
edition = "2021"

[dependencies]
iced-x86 = { version = "=1.22.0", default-features = false, features = ["std", "decoder", "instr_info"] }
