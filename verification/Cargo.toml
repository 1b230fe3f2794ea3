[package]
name = "mediatransport"
version = "0.1.0"
edition = "2021"
publish = false

[dependencies]
jni = "=0.22.4"
tokio = { version = "=1.53.2", default-features = false, features = ["rt", "time"] }
windows-future = "=0.3.2"
windows = { version = "=0.62.2", features = ["Foundation", "Media_Control", "Storage_Streams"] }
