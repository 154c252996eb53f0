//! Geometry, color, pixel and clipboard logic of a Wayland compositor widget.
pub mod text;
pub mod color;
pub mod geometry;
pub mod frequency;
pub mod pixel_data;
pub mod buffer;
pub mod margin;
pub mod clipboard;
pub mod config;
pub mod errors;
pub mod message;
pub mod managers;
pub mod lines;
pub mod keyboard;
pub mod surface_render;
pub mod input;
pub mod widget_state;
pub mod socket;
pub mod handlers;
