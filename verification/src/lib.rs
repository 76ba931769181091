//! A minimal modeless terminal text editor's core, with verified
//! contracts.
//!
//! The library owns the edit model: the rope-backed document with its
//! one cursor ([`buffer`]), the line model that maps character offsets
//! to rows ([`line_index`]), the visual-column arithmetic for tabs and
//! wide characters ([`width`]), the keystroke dispatch ([`keymap`]), and
//! the viewport that projects the document into one frame of drawing
//! commands ([`screen`]). Terminal and file I/O stay outside; callers
//! hand in bytes, keys and dimensions, and carry bytes and drawing
//! commands back out.

pub mod buffer;
pub mod file_props;
pub mod keymap;
pub mod line_index;
pub mod screen;
pub mod text_store;
pub mod textfmt;
pub mod width;
