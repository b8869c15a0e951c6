[package]
name = "lending_core"
version = "0.1.0"
edition = "2021"
publish = false

[dependencies]
anchor-lang = "0.24.2"
borsh = "0.9"
spl-token = { version = "3.2", default-features = false, features = ["no-entrypoint"] }
