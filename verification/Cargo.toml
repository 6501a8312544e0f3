[package]
name = "dioxus-i18n"
version = "0.1.0"
edition = "2021"
publish = false

[dependencies]
fluent = "=0.16.1"
intl-memoizer = "=0.5.3"
unic-langid = "=0.9.6"
dioxus-lib = { version = "=0.5.6", default-features = false, features = ["hooks", "signals"] }
