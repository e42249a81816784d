[package]
name = "mmgit"
version = "0.1.0"
edition = "2021"
publish = false

[dependencies]
ssh-key = "*"
actix-web = { version = "*", default-features = false, features = ["macros"] }
sqlx = { version = "*", default-features = false, features = ["runtime-tokio", "postgres", "uuid"] }
git2 = { version = "*", default-features = false }
uuid = { version = "*", features = ["serde"] }
serde = { version = "*", features = ["derive"] }
dotenvy = "*"
log = "*"
simplelog = "*"
anyhow = "*"
