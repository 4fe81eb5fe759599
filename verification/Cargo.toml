[package]
name = "sonai"
version = "0.1.0"
edition = "2021"
publish = false

[dependencies]
aho-corasick = "=1.1.5"
pulldown-cmark = "=0.13.4"
emojis = "=0.9.0"
unicode-segmentation = "=1.13.3"
httpdate = "=1.0.3"
serde = { version = "=1.0.229", features = ["derive"] }
bincode = { version = "=2.0.1", features = ["serde"] }
linfa = "=0.8.1"
linfa-clustering = { version = "=0.8.1", features = ["serde"] }
linfa-nn = "=0.8.1"
linfa-preprocessing = { version = "=0.8.1", features = ["serde"] }
ndarray = "=0.16.1"
reqwest = { version = "=0.13.5", default-features = false, features = ["json"] }
tokio = { version = "=1.53.2", features = ["macros", "rt-multi-thread", "fs", "sync", "time"] }
anyhow = "=1.0.104"
rand = "=0.8.8"
rand_xoshiro = "=0.6.0"
colored = "=3.1.1"
dotenvy = "=0.15.7"
num-format = "=0.4.4"
time = { version = "=0.3.55", features = ["formatting"] }
