[package]
name = "fastrace_google_cloud"
version = "0.1.0"
edition = "2021"
publish = false

[dependencies]
fastrace = "*"
google-cloud-trace-v2 = "*"
google-cloud-gax = "*"
google-cloud-rpc = "*"
google-cloud-wkt = "*"
log = "*"
tokio = { version = "1", features = ["rt", "net", "time"] }

[dev-dependencies]
opentelemetry-semantic-conventions = { version = "*", features = ["semconv_experimental"] }
