[package]
name = "pam_oidc"
version = "0.1.0"
edition = "2021"
publish = false

[dependencies]
oauth2 = { version = "=4.4.2", default-features = false, features = ["reqwest"] }
openidconnect = { version = "=3.5.0", default-features = false, features = ["reqwest"] }
pam-bindings = "=0.1.2"
reqwest = { version = "=0.11.27", default-features = false, features = ["blocking", "rustls-tls-native-roots"] }
serde_yaml = "0.9"
url = "=2.5.8"
