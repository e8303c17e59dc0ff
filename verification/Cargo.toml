[package]
name = "open_pi_scope"
version = "0.1.0"
edition = "2021"
publish = false

[dependencies]
anyhow = "1"
ascom-alpaca = { version = "1.0.0-beta.10", features = ["server", "telescope"] }
async-trait = "0.1"
axum = "0.8"
bno055 = "0.4"
chrono = "0.4"
embedded-hal = "1"
futures = "0.3"
gpsd_proto = "1"
linux-embedded-hal = { version = "0.4", default-features = false }
nalgebra = { version = "0.33", features = ["serde-serialize"] }
rppal = { version = "0.22", features = ["hal"] }
serde = { version = "1", features = ["derive"] }
serde_json = "1"
tokio = { version = "1", features = ["full"] }
tokio-util = { version = "0.7", features = ["codec"] }
toml_edit = "0.22"
utoipa = "5"
utoipa-axum = "0.2"
utoipa-swagger-ui = { version = "9", features = ["axum", "vendored"] }
world_magnetic_model = "0.4"
