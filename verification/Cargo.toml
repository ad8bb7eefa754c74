[package]
name = "riscv_emu"
version = "0.1.0"
edition = "2021"
publish = false

[dependencies]
getopts = "0.2"
pancurses = "*"
wasm-bindgen = "0.2"
