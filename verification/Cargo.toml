[package]
name = "industrial_evolution"
version = "0.1.0"
edition = "2021"
publish = false

[dependencies]
pathfinding = "=4.4.0"
rand = "0.8"
