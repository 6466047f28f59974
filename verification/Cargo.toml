[package]
name = "sublate"
version = "0.1.0"
edition = "2021"
publish = false

[dependencies]
serde = { version = "=1.0.229", features = ["derive"] }
serde_json = "=1.0.154"
rustpython-vm = "=0.4.0"
num-traits = "=0.2.19"
gloo-worker = { version = "=0.6.0", features = ["futures"] }
futures = "=0.3.34"
wasm-bindgen = "=0.2.130"
web-sys = { version = "=0.3.107", features = ["console"] }
console_error_panic_hook = "=0.1.7"
kurbo = "=0.13.1"
peniko = "=0.6.1"
velato = "=0.12.0"
tween = "=2.2.0"
dioxus = { version = "=0.7.10", default-features = false, features = ["macro", "html", "hooks", "signals"] }
tokio = { version = "=1.54.1", features = ["macros"] }
