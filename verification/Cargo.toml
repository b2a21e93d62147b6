[package]
name = "webview_official"
version = "0.1.0"
edition = "2021"
publish = false

[dependencies]
serde_json = "=1.0.154"
headless_chrome = "=0.9.0"
webview-official-sys = "=0.1.2"
