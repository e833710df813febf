[package]
name = "memefs"
version = "0.1.0"
edition = "2021"
publish = false

[dependencies]
clap = "2"
ctrlc = "3"
fuse = "0.3"
libc = "0.2"
reqwest = "0.9"
serde_json = "1"
time = "0.1"
url = "1.7"
