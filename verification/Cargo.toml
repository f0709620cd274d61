[package]
name = "aardwolf_types"
version = "0.1.0"
edition = "2021"
publish = false

[dependencies]
actix-web = { version = "4", default-features = false, features = ["macros", "cookies"] }
diesel = { version = "1.4", default-features = false, features = ["postgres"] }
failure = "0.1"
futures = "0.3"
rocket = { version = "0.5", features = ["json", "secrets"] }
serde = { version = "1", features = ["derive"] }
