[package]
name = "upload_service"
version = "0.1.0"
edition = "2021"
publish = false

[dependencies]
actix-web = "4"
dotenv = "0.15"
env_logger = "*"
log = "*"
futures-util = "0.3"
