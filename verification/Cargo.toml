[package]
name = "rat_menu"
version = "0.1.0"
edition = "2021"
publish = false

[dependencies]
ratatui = "=0.28.1"
crossterm = "=0.28.1"
rat-event = "=0.25.2"
rat-focus = "=0.28.0"
unicode-segmentation = "=1.13.3"
