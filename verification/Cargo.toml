[package]
name = "neotoaster"
version = "0.1.0"
edition = "2021"
publish = false

[dependencies]
yoloxide = "=0.4.4"
cylon_ast = "=0.4.0"
serde_json = "*"
serenity = { version = "=0.10.10", features = ["standard_framework"] }
tokio = { version = "1", features = ["macros", "rt-multi-thread"] }
tracing = "*"
tracing-subscriber = { version = "=0.3.23", features = ["env-filter"] }
