//! A memory-safe object model over a native PDF library's page objects and font glyphs.
pub mod bindings;
pub mod color;
pub mod document;
pub mod error;
pub mod points;
pub mod font_glyph;
pub mod page_object;
