[package]
name = "person_posts"
version = "0.1.0"
edition = "2021"
publish = false

[dependencies]
chrono = "=0.4.45"
diesel = { version = "=1.4.3", features = ["postgres", "uuidv07", "chrono"] }
juniper = "=0.14.2"
juniper_rocket = "0.5"
rocket = "0.4"
rocket_contrib = { version = "0.4", default-features = false, features = ["diesel_postgres_pool"] }
uuid = { version = "=0.7.4", features = ["v4"] }
