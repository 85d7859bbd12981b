[package]
name = "auth_example"
version = "0.1.0"
edition = "2021"
publish = false

[dependencies]
actix-files = "*"
actix-identity = "*"
actix-session = { version = "*", features = ["cookie-session"] }
actix-web = { version = "=4.15.0", features = ["secure-cookies"] }
base64 = "=0.23.1"
config = "*"
dotenvy = "*"
env_logger = "*"
inertia-rust = { version = "=2.4.6", features = ["actix", "vite-hbs-template-resolver"] }
serde = { version = "*", features = ["derive"] }
serde_json = "*"
vite-rust = "=0.2.4"
