[package]
name = "crane_webserver"
version = "0.1.0"
edition = "2021"
publish = false

[dependencies]
url = "*"
scoped_threadpool = "*"
