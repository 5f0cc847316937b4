//! The dashboard's event loop, as far as it decides: what a key or a pointer
//! event asks for, what that does to the state, and what is left to be done
//! outside.
use vstd::prelude::*;

pub mod clipboard;
pub mod keys;
pub mod laws;
pub mod perform;
pub mod pointer;
pub mod prompt;
pub mod session;
pub mod startup;
pub mod urls;

verus! {

/// Lines of one log page.
pub const LOG_PAGE: usize = 20;

/// Lines the wheel scrolls the logs.
pub const MOUSE_SCROLL_LINES: usize = 3;

/// Columns the tab row scrolls per wheel notch when the pointer is over it.
pub const MOUSE_TAB_SCROLL_COLS: i32 = 4;

} // verus!
