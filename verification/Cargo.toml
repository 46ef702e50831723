[package]
name = "vault_aws_auth"
version = "0.1.0"
edition = "2021"
publish = false

[dependencies]
base64 = "=0.13.1"
rusoto_credential = "=0.48.0"
rusoto_signature = "=0.48.0"
reqwest = { version = "=0.11.27", default-features = false, features = ["json"] }
serde_json = "=1.0.151"
serde_urlencoded = "=0.7.1"
