[package]
name = "slimy_widgets"
version = "0.1.0"
edition = "2021"
publish = false

[dependencies]
ab_glyph = "0.2"
glyph_brush = "0.7"
clipboard = "0.5"
