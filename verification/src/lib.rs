//! Session and settings core of a small text editor.
//!
//! The crate keeps the editor's persistent preferences (theme, font size,
//! word wrap, window geometry, recent files) and its in-memory session
//! state (current file, modified flag, pending startup file), and states
//! the rules they follow as verified contracts. File and settings I/O,
//! JSON encoding, and the GUI shell live outside this crate and hand in
//! plain values.

pub mod recent;
pub mod session;
pub mod settings;
pub mod text;

use vstd::prelude::*;

verus! {

/// Font sizes the editor accepts, inclusive bounds.
pub const MIN_FONT_SIZE: u32 = 8;

pub const MAX_FONT_SIZE: u32 = 32;

/// Clamp a requested font size into the accepted range.
pub fn clamp_font_size(size: u32) -> (r: u32)
    ensures
        r == spec_clamp_font_size(size),
        MIN_FONT_SIZE <= r <= MAX_FONT_SIZE,
{
    if size < MIN_FONT_SIZE {
        MIN_FONT_SIZE
    } else if size > MAX_FONT_SIZE {
        MAX_FONT_SIZE
    } else {
        size
    }
}

/// The clamped font size: the nearest value inside the accepted range.
pub open spec fn spec_clamp_font_size(size: u32) -> u32 {
    if size < MIN_FONT_SIZE {
        MIN_FONT_SIZE
    } else if size > MAX_FONT_SIZE {
        MAX_FONT_SIZE
    } else {
        size
    }
}

} // verus!
