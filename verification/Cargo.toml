[package]
name = "buck2_logic"
version = "0.1.0"
edition = "2021"
publish = false

[dependencies]
slab = "0.4"
starlark_map = "*"
superconsole = "*"
clap = { version = "4", features = ["derive"] }
parking_lot = "0.12"
futures = "0.3"
