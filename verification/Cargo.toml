[package]
name = "code_judge"
version = "0.1.0"
edition = "2021"
publish = false

[dependencies]
actix-embed = "*"
actix-web = "*"
actix-web-httpauth = "*"
bcrypt = "=0.19.3"
envy = "*"
once_cell = "*"
rust-embed = "6"
serde = { version = "*", features = ["derive"] }
serde_json = "*"
tokio = { version = "*", features = ["sync"] }
ulid = "=3.0.0"
wait-timeout = "*"
