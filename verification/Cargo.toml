[package]
name = "commitgen"
version = "0.1.0"
edition = "2021"
publish = false

[dependencies]
serde_json = "1"
isahc = "1"
dotenvy = "0.15"
yansi = "1"
