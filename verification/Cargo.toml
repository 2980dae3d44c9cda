[package]
name = "storm_services"
version = "0.1.0"
edition = "2021"
publish = false

[dependencies]
cuid2 = "*"
serde = { version = "1", features = ["derive"] }
serde_json = "1"
thiserror = "*"
lambda_http = "*"
lambda_runtime = "*"
tokio = { version = "1", features = ["macros", "rt-multi-thread"] }
aws-config = { version = "1", features = ["behavior-version-latest"] }
aws-sdk-dynamodb = "1"
aws-sdk-lambda = "1"
serde_dynamo = { version = "4", features = ["aws-sdk-dynamodb+1"] }
once_cell = "1"
tracing = "0.1"
tracing-subscriber = { version = "0.3", features = ["env-filter"] }
