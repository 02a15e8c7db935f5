[package]
name = "worktree_status"
version = "0.1.0"
edition = "2021"
publish = false

[dependencies]
git2 = { version = "0.20", default-features = false }
icns = "0.3"
plist = "1"
serde = { version = "1", features = ["derive"] }
urlencoding = "2"

[dev-dependencies]
tempfile = "3"
