[package]
name = "path_hider"
version = "0.1.0"
edition = "2021"
publish = false

[dependencies]
anyhow = "1"
clap = { version = "4", features = ["derive"] }
globset = "0.4"
jwalk = "0.8"
notify = "6"
rayon = "1"
regex = "1"
winapi = { version = "0.3", features = ["fileapi", "winnt", "minwindef"] }
