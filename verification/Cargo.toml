[package]
name = "killjoy"
version = "0.1.0"
edition = "2021"
publish = false

[dependencies]
regex = "*"
dbus = "*"
serde = { version = "*", features = ["derive"] }
serde_json = "*"
clap = "*"
textwrap = "*"
xdg = "*"
