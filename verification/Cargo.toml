[package]
name = "libos"
version = "0.1.0"
edition = "2021"
publish = false

[dependencies]
riscv = "=0.10.1"
sbi-rt = "=0.0.4"
