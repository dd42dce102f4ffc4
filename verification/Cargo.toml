[package]
name = "entities"
version = "0.1.0"
edition = "2021"
publish = false

[dependencies]
async-trait = "0.1"
bcrypt = "0.15"
chrono = "0.4"
names = { version = "0.14", default-features = false }
rand = "0.8"
sea-orm = { version = "0.12", default-features = false, features = ["macros", "with-chrono", "with-json", "with-uuid"] }
sea-orm-migration = { version = "0.12", default-features = false }
serde = { version = "1", features = ["derive"] }
uuid = { version = "1", features = ["v4"] }
