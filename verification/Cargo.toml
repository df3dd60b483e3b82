[package]
name = "lambda_web_adapter"
version = "0.7.0"
edition = "2021"
publish = false

[dependencies]
http = "0.2"
hyper = { version = "0.14", features = ["client", "http1", "tcp"] }
lambda_http = { version = "0.8", default-features = false, features = ["apigw_http", "apigw_rest", "alb"] }
serde_json = "1"
tokio = { version = "1", features = ["macros", "net", "rt-multi-thread", "time"] }
tokio-retry = "0.3"
tower = { version = "0.4", features = ["util"] }
tower-http = { version = "0.4", features = ["compression-gzip", "compression-br"] }
tracing = "0.1"
url = "2"
