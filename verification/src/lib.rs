//! A font-handle layer: descriptors of fonts, the faces that a font engine has
//! opened, and the queries a text pipeline makes of them.
//!
//! A font engine is an outside collaborator. What it reports about a face is
//! held here as plain data (`face`), and every query of a font (`font`,
//! `loader`) is verified against that data. Files are told apart by their
//! first bytes (`file_type`); rendered glyphs are drawn onto canvases of any
//! pixel format (`canvas`).

pub mod canvas;
pub mod encoding;
pub mod error;
pub mod face;
pub mod family_handle;
pub mod file_type;
pub mod font;
pub mod geometry;
pub mod handle;
pub mod hinting;
pub mod loader;
pub mod metrics;
pub mod outline;
pub mod properties;
mod shared;
