[package]
name = "web_server"
version = "0.1.0"
edition = "2021"
publish = false

[dependencies]
axum = { version = "0.7", features = ["ws"] }
axum-extra = { version = "0.9", features = ["typed-header"] }
axum-macros = "0.4"
bevy = { version = "0.14", default-features = false }
bevy-tokio-tasks = "0.14"
futures = "0.3"
headers = "0.4"
leptos = { version = "0.6", features = ["ssr"] }
leptos_axum = "0.6"
leptos_router = { version = "0.6", features = ["ssr"] }
tokio = { version = "1", features = ["macros", "net", "rt-multi-thread", "sync", "time"] }
tower = { version = "0.4", features = ["util"] }
tower-http = { version = "0.5", features = ["fs", "trace"] }
tracing-subscriber = { version = "0.3", features = ["env-filter"] }
