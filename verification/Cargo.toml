[package]
name = "azure_sdk_storage"
version = "0.1.0"
edition = "2021"
publish = false

[dependencies]
chrono = "0.4"
http = "0.1"
url = "1.7"
futures = "0.1"
RustyXML = "*"
