[package]
name = "zik"
version = "0.1.0"
edition = "2021"
publish = false

[dependencies]
clap = "3"
directories = "4"
id3 = "0.6"
metaflac = "0.2"
mp4parse = "0.12"
rusqlite = "0.27"
walkdir = "2"
