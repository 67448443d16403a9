[package]
name = "conference_planner"
version = "0.1.0"
edition = "2021"
publish = false

[dependencies]
rand = "0.8"
serde = { version = "1", features = ["derive"] }
serde_json = "1"
actix-web = "3"
actix-service = "1"
awc = "2"
actix-web-opentelemetry = "0.10"
opentelemetry = "0.12"
opentelemetry-jaeger = { version = "0.11", features = ["collector_client"] }
env_logger = "0.8"
log = "0.4"
futures = "0.3"
handlebars = "3"
reqwest = { version = "0.11", default-features = false, features = ["blocking"] }
