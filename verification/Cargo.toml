[package]
name = "librarian_vault_agent"
version = "0.1.0"
edition = "2021"
publish = false

[dependencies]
getrandom = "*"
hmac = "*"
minicbor = { version = "*", features = ["std"] }
rusqlite = { version = "*", features = ["bundled", "limits", "serialize"] }
rustix = { version = "*", features = ["fs"] }
same-file = "*"
sha2 = "*"
zeroize = "*"
