[package]
name = "photo_blog"
version = "0.1.0"
edition = "2021"
publish = false

[dependencies]
actix-rt = "1"
actix-web = "3"
async-trait = "0.1"
chrono = "0.4"
dataloader = "0.14"
diesel = { version = "1.4", features = ["postgres", "r2d2", "chrono"] }
dotenv = "0.15"
env_logger = "0.8"
futures = "0.3"
juniper = "0.15"
log = "0.4"
r2d2 = "0.8"
serde_json = "1"
