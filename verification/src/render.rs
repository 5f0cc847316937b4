//! Drawing the dashboard: what each frame shows, as a list of things to draw,
//! and the hit areas that go with it.
//!
//! The sidebar has no border: a dim section header and a filled highlight for
//! the selected row, with the main pane's left border as the divider. Its top
//! section lists the stacks, its bottom the dependency checks that gate
//! startup. Services live in the tabs of the main pane.
pub mod dialogs;
pub mod frame;
pub mod glyphs;
pub mod laws;
pub mod layout;
pub mod notices;
pub mod paint;
pub mod panels;
pub mod sidebar;
pub mod tabs;
pub mod viewport;
