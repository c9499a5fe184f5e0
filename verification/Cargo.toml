[package]
name = "wanderer"
version = "0.1.0"
edition = "2021"
publish = false

[dependencies]
rand = "=0.10.3"
geo = "*"
json = "*"
reqwest = { version = "*", default-features = false, features = ["json", "form", "query"] }
serde = { version = "*", features = ["derive"] }
tokio = { version = "*", features = ["macros", "rt-multi-thread", "time"] }
uuid = { version = "*", features = ["v4"] }
rpassword = "*"
strfmt = "*"
