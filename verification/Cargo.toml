[package]
name = "ohos_plugins"
version = "0.1.0"
edition = "2021"
publish = false

[dependencies]
serde = { version = "1", features = ["derive"] }
serde_json = "1"
log = "0.4"
openharmony-ability = "0.3"
openharmony-ability-plugin-continuation = "=1.0.0-beta.5"
