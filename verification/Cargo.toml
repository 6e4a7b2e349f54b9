[package]
name = "traewelling_polylines"
version = "0.1.0"
edition = "2021"
publish = false

[dependencies]
geozero = { version = "*", default-features = false, features = ["with-geojson", "with-gpx"] }
itertools = "*"
reqwest = "*"
serde = { version = "1", features = ["derive"] }
serde_json = "1"
serde_yml = "*"
tokio = { version = "1", features = ["fs", "macros", "rt-multi-thread", "time"] }
