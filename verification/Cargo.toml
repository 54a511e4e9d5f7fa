[package]
name = "todo_api"
version = "0.1.0"
edition = "2021"
publish = false

[dependencies]
aws-config = { version = "=1.13.0", features = ["behavior-version-latest"] }
aws-sdk-cognitoidentityprovider = { version = "=1.142.0", features = ["behavior-version-latest"] }
axum = "=0.6.20"
base64 = "=0.21.7"
dotenv = "=0.15.0"
jsonwebtokens = "=1.2.0"
reqwest = { version = "=0.11.27", features = ["json"] }
ring = "=0.17.14"
serde = { version = "=1.0.229", features = ["derive"] }
serde_json = "=1.0.154"
sqlx = { version = "=0.7.4", default-features = false, features = ["runtime-tokio", "sqlite", "macros", "migrate"] }
tokio = { version = "=1.54.1", features = ["macros", "rt-multi-thread"] }
tower-http = { version = "=0.4.4", features = ["cors"] }
