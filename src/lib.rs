//! Immediate-mode debug drawing: batches of lines and bitmap-font text that are
//! gathered during a frame and handed to the graphics device once per frame.
//!
//! The batching, buffer-growth, glyph-layout and pipeline-cache decisions live
//! here and are verified; the device work they plan is carried out by the caller.

pub mod utils;
pub mod xml_tree;
pub mod bitmap_font;
pub mod pipeline_cache;
pub mod line_renderer;
pub mod text_renderer;

pub use bitmap_font::{BitmapCharacter, BitmapFont};
pub use line_renderer::LineRenderer;
pub use text_renderer::TextRenderer;
pub use utils::grow_buffer;
