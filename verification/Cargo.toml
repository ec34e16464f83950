[package]
name = "cerke_bot"
version = "0.1.0"
edition = "2021"
publish = false

[dependencies]
render_cerke_board = "=0.1.18"
cetkaik_naive_representation = "=1.3.0"
cetkaik_fundamental = "=1.0.0"
image = "=0.23.14"
boolinator = "=2.4.0"
serde_json = "=1.0.151"
lazy_static = "=1.5.1"
serenity = "0.7"
