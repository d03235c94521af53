[package]
name = "ixwindow"
version = "0.1.0"
edition = "2021"
publish = false

[dependencies]
anyhow = "1"
bspc-rs = "*"
clap = { version = "4", features = ["derive"] }
i3ipc = "0.10"
image = { version = "0.24", default-features = false, features = ["jpeg", "png"] }
serde = { version = "1", features = ["derive"] }
shellexpand = "3"
toml = "0.7"
x11rb = { version = "0.12", features = ["randr"] }
