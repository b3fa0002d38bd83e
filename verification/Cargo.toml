[package]
name = "typst_2_rsx"
version = "0.1.0"
edition = "2021"
publish = false

[dependencies]
dioxus = { version = "=0.6.3", default-features = false, features = ["macro", "html", "signals"] }
serde = { version = "=1.0.229", features = ["derive"] }
serde-xml-rs = "=0.6.0"
thiserror = "=2.0.21"
