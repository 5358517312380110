[package]
name = "foodfetch"
version = "0.1.0"
edition = "2021"
publish = false

[dependencies]
anyhow = "1"
clap = { version = "4", features = ["derive"] }
colored = "*"
image = { version = "0.25", default-features = false, features = ["jpeg", "png"] }
once_cell = "1"
reqwest = { version = "0.12", features = ["blocking", "json"] }
serde = { version = "1", features = ["derive"] }
serde_json = "1"
strsim = "0.11"
term_size = "0.3"
textwrap = "0.16"
