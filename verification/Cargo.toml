[package]
name = "beatmap_pp"
version = "0.1.0"
edition = "2021"
publish = false

[dependencies]
rosu-pp = "*"
interoptopus = "=0.14.27"
bytemuck = "*"
