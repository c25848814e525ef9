[package]
name = "tokimo-translate"
version = "0.1.0"
edition = "2021"
publish = false

[dependencies]
anyhow = "1"
encoding_rs = "0.8"
llama-cpp-2 = "*"
ort = { version = "2.0.0-rc.10", default-features = false, features = ["load-dynamic"] }
reqwest = { version = "0.12", default-features = false, features = ["blocking", "rustls-tls"] }
tokenizers = { version = "*", default-features = false, features = ["onig"] }
tracing-subscriber = "0.3"
