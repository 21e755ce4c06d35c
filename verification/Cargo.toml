[package]
name = "discord_ci_cd"
version = "0.1.0"
edition = "2021"
publish = false

[dependencies]
actix = "0.13"
actix-web = "4"
anyhow = "1"
crossbeam = "0.8"
docker-command = "*"
git2 = "0.19"
poise = "0.6"
serde = { version = "1", features = ["derive"] }
tokio = { version = "1", features = ["full"] }
toml = "0.8"
url = { version = "2", features = ["serde"] }
