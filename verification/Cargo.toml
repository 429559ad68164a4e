[package]
name = "filebin_img_uploader"
version = "0.1.0"
edition = "2021"
publish = false

[dependencies]
infer = "*"
serde_json = "*"
url = "*"
reqwest = { version = "*", default-features = false, features = ["multipart"] }
tokio = { version = "*", features = ["macros", "rt-multi-thread"] }
notify-rust = "*"
native-dialog = "*"
wl-clipboard-rs = "*"
color-eyre = "*"
