[package]
name = "bspsuite"
version = "0.1.0"
edition = "2021"
publish = false

[dependencies]
anyhow = "*"
clap = { version = "*", features = ["derive"] }
const-cstr = "*"
constcat = "*"
fern = "*"
glam = "*"
lazy_static = "*"
libloading = "*"
log = "*"
logos = "*"
paris = "*"
strum = { version = "*", features = ["derive"] }
target-lexicon = "*"
