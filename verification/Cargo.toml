[package]
name = "mcycle_delay"
version = "0.1.0"
edition = "2021"
publish = false

[dependencies]
riscv = "*"
embedded-hal = "0.2"
