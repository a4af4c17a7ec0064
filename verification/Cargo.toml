[package]
name = "repo_mirror"
version = "0.1.0"
edition = "2021"
publish = false

[dependencies]
git2 = "*"
graphql_client = "*"
reqwest = { version = "*", features = ["blocking", "json"] }
serde = { version = "*", features = ["derive"] }
toml = "*"
