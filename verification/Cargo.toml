[package]
name = "attheme_bot"
version = "0.1.0"
edition = "2021"
publish = false

[dependencies]
attheme = "=0.3.0"
tbot = "=0.6.7"
tokio = { version = "=1.53.2", features = ["macros", "rt-multi-thread", "time"] }
