[package]
name = "xrpc_console"
version = "0.1.0"
edition = "2021"
publish = false

[dependencies]
serde_json = "*"
time = "*"
crossterm = "*"
ratatui = "*"
arboard = { version = "*", default-features = false }
smol = "*"
surf = { version = "*", default-features = false, features = ["h1-client-rustls"] }
serde = { version = "*", features = ["derive"] }
