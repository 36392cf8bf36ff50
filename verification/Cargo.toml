[package]
name = "esdr"
version = "0.1.0"
edition = "2021"
publish = false

[dependencies]
anyhow = "=1.0.104"
async-task = "=4.7.1"
derive_builder = "=0.11.2"
eframe = "0.18"
enum_dispatch = "=0.3.13"
futuredsp = "=0.0.4"
futuresdr = "=0.0.22"
strum = "=0.24.1"
strum_macros = "=0.24.3"
uuid = { version = "=1.29.0", features = ["v4"] }
