[package]
name = "svg2polylines"
version = "0.8.1"
edition = "2021"
publish = false

[dependencies]
libc = "0.2"
log = "0.4"
lyon_geom = "0.17"
quick-xml = "0.22"
serde = { version = "1", features = ["derive"] }
svgtypes = "0.8"
thiserror = "1"
usvg = "0.22"
