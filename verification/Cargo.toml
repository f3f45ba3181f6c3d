[package]
name = "genlib"
version = "0.1.0"
edition = "2021"
publish = false

[dependencies]
chrono = "0.4"
walkdir = "2"
directories = "*"
dirs = "*"
anyhow = "1"
thiserror = "*"
tracing = "0.1"
egui = "*"
