[package]
name = "conrod_graph_widget"
version = "0.1.0"
edition = "2021"
publish = false

[dependencies]
conrod = "=0.61.1"
conrod_derive = "=0.1.2"
petgraph = "=0.4.13"
