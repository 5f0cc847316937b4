//! The mouse: wheel, clicks, drags, and the pointer shape that the terminal is
//! asked for.
use std::time::Instant;

use vstd::prelude::*;

use crate::state::chrome::clamped_sidebar;
use crate::state::toasts::notif_line;
use crate::state::{
    ClickTarget, HitsView, Layout, NoticesView, ToastKind, TuiState, TuiView,
};

use super::{MOUSE_SCROLL_LINES, MOUSE_TAB_SCROLL_COLS};

verus! {

/// A mouse-pointer shape.
#[derive(Debug, Clone, Copy, PartialEq, Eq, Structural)]
pub enum PointerShape {
    Arrow,
    Pointer,
    ColResize,
    RowResize,
}

impl PointerShape {
    /// The CSS cursor keyword.
    pub open spec fn keyword(self) -> Seq<char> {
        match self {
            PointerShape::Arrow => "default"@,
            PointerShape::Pointer => "pointer"@,
            PointerShape::ColResize => "ew-resize"@,
            PointerShape::RowResize => "ns-resize"@,
        }
    }
}

/// Any-event tracking (press, release, drag and hover) with extended
/// coordinates, on.
pub fn enable_mouse() -> (r: &'static str)
    ensures
        r@ == "\x1b[?1003h\x1b[?1006h"@,
{
    "\x1b[?1003h\x1b[?1006h"
}

/// Tracking off. The pointer shape goes back to the terminal's own, so that a
/// hand left over from a hover doesn't persist.
pub fn disable_mouse() -> (r: &'static str)
    ensures
        r@ == "\x1b[?1003l\x1b[?1006l\x1b]22;default\x1b\\"@,
{
    "\x1b[?1003l\x1b[?1006l\x1b]22;default\x1b\\"
}

/// The sequence that asks the terminal for a pointer shape. Terminals that
/// don't know it ignore it.
pub fn set_pointer_shape(shape: PointerShape) -> (r: String)
    ensures
        r@ == "\x1b]22;"@ + shape.keyword() + "\x1b\\"@,
{
    let mut r = "\x1b]22;".to_owned();
    r.append(
        match shape {
            PointerShape::Arrow => "default",
            PointerShape::Pointer => "pointer",
            PointerShape::ColResize => "ew-resize",
            PointerShape::RowResize => "ns-resize",
        },
    );
    r.append("\x1b\\");
    r
}

/// The shape to show: a resize arrow through a drag, else what is `under` the
/// pointer.
pub open spec fn wanted_shape(v: TuiView, under: PointerShape) -> PointerShape {
    if v.hits.sidebar_dragging {
        PointerShape::ColResize
    } else if v.hits.scrollbar_dragging {
        PointerShape::RowResize
    } else {
        under
    }
}

/// The shape for a cell: resize arrows over the divider and the scrollbar, a
/// hand over what can be clicked.
pub open spec fn shape_over(v: TuiView, col: u16, row: u16) -> PointerShape {
    if v.on_divider(col, row) {
        PointerShape::ColResize
    } else if v.on_scrollbar(col, row) {
        PointerShape::RowResize
    } else if v.hits.region_at(col, row) is Some {
        PointerShape::Pointer
    } else {
        PointerShape::Arrow
    }
}

/// What the hit areas say of the cell under the pointer.
pub fn pointer_shape_at(state: &TuiState, col: u16, row: u16) -> (r: PointerShape)
    ensures
        r == shape_over(state@, col, row),
{
    if state.sidebar_divider_at(col, row) {
        PointerShape::ColResize
    } else if state.scrollbar_at(col, row) {
        PointerShape::RowResize
    } else if state.target_at(col, row).is_some() {
        PointerShape::Pointer
    } else {
        PointerShape::Arrow
    }
}

/// Updates the shape that the terminal was last asked for. Returns the sequence
/// to send, if the shape changed: a still pointer sends nothing.
pub fn reshape(state: &TuiState, last: &mut PointerShape, under: PointerShape) -> (r: Option<
    String,
>)
    ensures
        *final(last) == wanted_shape(state@, under),
        match r {
            Some(s) => *old(last) != wanted_shape(state@, under) && s@ == "\x1b]22;"@
                + wanted_shape(state@, under).keyword() + "\x1b\\"@,
            None => *old(last) == wanted_shape(state@, under),
        },
{
    let want = if state.sidebar_dragging() {
        PointerShape::ColResize
    } else if state.scrollbar_dragging() {
        PointerShape::RowResize
    } else {
        under
    };
    if want == *last {
        return None;
    }
    *last = want;
    Some(set_pointer_shape(want))
}

/// What the mouse did.
#[derive(Debug, Clone, Copy, PartialEq, Eq, Structural)]
pub enum MouseKind {
    ScrollUp,
    ScrollDown,
    ScrollLeft,
    ScrollRight,
    LeftDown,
    LeftDrag,
    LeftUp,
    Other,
}

/// A mouse event at a cell.
#[derive(Debug, Clone, Copy, PartialEq, Eq, Structural)]
pub struct MouseEvent {
    pub kind: MouseKind,
    pub col: u16,
    pub row: u16,
    /// The cell lies on the tab row.
    pub on_tabs: bool,
    /// The columns of the tab row: a page of it.
    pub tab_page: u16,
}

impl TuiView {
    /// The divider follows the pointer.
    pub open spec fn sidebar_dragged(self, col: u16) -> TuiView {
        match self.hits.sidebar_divider {
            Some(d) => TuiView {
                layout: Layout {
                    sidebar_width: clamped_sidebar(col, d.total_width) as u16,
                    ..self.layout
                },
                ..self
            },
            None => self,
        }
    }

    pub open spec fn on_divider(self, col: u16, row: u16) -> bool {
        match self.hits.sidebar_divider {
            Some(d) => d.covers(col, row),
            None => false,
        }
    }

    pub open spec fn on_scrollbar(self, col: u16, row: u16) -> bool {
        match self.hits.scrollbar_hit {
            Some(h) => h.covers(col, row),
            None => false,
        }
    }

    pub open spec fn with_hits(self, hits: HitsView) -> TuiView {
        TuiView { hits, ..self }
    }

    /// The notification under the pointer, if the history has any.
    pub open spec fn notice_under(self, col: u16, row: u16) -> Option<usize> {
        match self.hits.region_at(col, row) {
            Some(ClickTarget::Notif(d)) => Some(d),
            _ => None,
        }
    }

    /// The state after a left press. In the notifications modal it copies the
    /// row under the pointer; under any other modal it does nothing; else it
    /// grabs the divider or the scrollbar, or selects what was clicked. An edge
    /// marker of the tab row selects nothing.
    pub open spec fn pressed(self, col: u16, row: u16, now: Instant) -> TuiView {
        if self.notices.visible {
            match self.notice_under(col, row) {
                Some(d) => {
                    let moved = TuiView {
                        notices: NoticesView { cursor: d, ..self.notices },
                        ..self
                    };
                    if self.notices.history.len() == 0 {
                        moved
                    } else {
                        moved.passing("copy"@, "notification copied"@, now)
                    }
                },
                None => self,
            }
        } else if self.modal_open() {
            self
        } else if self.on_divider(col, row) {
            self.with_hits(HitsView { sidebar_dragging: true, ..self.hits }).sidebar_dragged(col)
        } else if self.on_scrollbar(col, row) {
            self.with_hits(HitsView { scrollbar_dragging: true, ..self.hits }).scrollbar_dragged(
                row,
            )
        } else {
            self.clicked(col, row)
        }
    }

    /// The state after a mouse event.
    pub open spec fn pointed(self, e: MouseEvent, now: Instant) -> TuiView {
        match e.kind {
            MouseKind::ScrollUp => if e.on_tabs {
                self
            } else {
                self.with_stacks(
                    self.stacks.scrolled_up(
                        MOUSE_SCROLL_LINES as int,
                        self.layout.viewport_height,
                    ),
                )
            },
            MouseKind::ScrollDown => if e.on_tabs {
                self
            } else {
                self.with_stacks(self.stacks.scrolled_down(MOUSE_SCROLL_LINES as int))
            },
            MouseKind::LeftDown => self.pressed(e.col, e.row, now),
            MouseKind::LeftDrag => if self.hits.sidebar_dragging {
                self.sidebar_dragged(e.col)
            } else if self.hits.scrollbar_dragging {
                self.scrollbar_dragged(e.row)
            } else {
                self
            },
            MouseKind::LeftUp => self.with_hits(
                HitsView { sidebar_dragging: false, scrollbar_dragging: false, ..self.hits },
            ),
            _ => self,
        }
    }
}

/// What a mouse event leaves to be done.
#[derive(Debug, PartialEq, Eq)]
pub enum PointerEffect {
    Nothing,
    /// Scroll the tab row by this many columns.
    ScrollTabs(i32),
    Copy(String),
}

/// Columns that the tab row scrolls: the wheel scrolls it while the pointer is
/// over it, up and left being backward, and a press on an edge marker pages it.
pub open spec fn tab_columns(v: TuiView, e: MouseEvent) -> Option<i32> {
    match e.kind {
        MouseKind::ScrollUp | MouseKind::ScrollLeft => if e.on_tabs {
            Some((-MOUSE_TAB_SCROLL_COLS) as i32)
        } else {
            None
        },
        MouseKind::ScrollDown | MouseKind::ScrollRight => if e.on_tabs {
            Some(MOUSE_TAB_SCROLL_COLS)
        } else {
            None
        },
        MouseKind::LeftDown => if v.modal_open() || v.on_divider(e.col, e.row) || v.on_scrollbar(
            e.col,
            e.row,
        ) {
            None
        } else {
            match v.hits.region_at(e.col, e.row) {
                Some(ClickTarget::TabScrollLeft) => Some((-(e.tab_page as int)) as i32),
                Some(ClickTarget::TabScrollRight) => Some(e.tab_page as i32),
                _ => None,
            }
        },
        _ => None,
    }
}

/// The row that a press copies.
pub open spec fn copied_notice(v: TuiView, e: MouseEvent) -> Option<usize> {
    if e.kind == MouseKind::LeftDown && v.notices.visible && v.notices.history.len() > 0 {
        v.notice_under(e.col, e.row)
    } else {
        None
    }
}

/// Handles a mouse event at `now`.
pub fn handle_mouse_at(state: &mut TuiState, e: MouseEvent, now: Instant) -> (r: PointerEffect)
    requires
        old(state).wf(),
    ensures
        final(state).wf(),
        final(state)@ == old(state)@.pointed(e, now),
        match r {
            PointerEffect::ScrollTabs(n) => tab_columns(old(state)@, e) == Some(n),
            PointerEffect::Copy(text) => copied_notice(old(state)@, e) is Some && exists|
                secs: u64,
            |
                text@ == #[trigger] notif_line(
                    final(state)@.notices.at(final(state)@.notices.selected()),
                    secs,
                ),
            PointerEffect::Nothing => tab_columns(old(state)@, e) is None && copied_notice(
                old(state)@,
                e,
            ) is None,
        },
{
    match e.kind {
        MouseKind::ScrollUp => {
            if e.on_tabs {
                return PointerEffect::ScrollTabs(-MOUSE_TAB_SCROLL_COLS);
            }
            state.log_scroll_up(MOUSE_SCROLL_LINES);
        },
        MouseKind::ScrollDown => {
            if e.on_tabs {
                return PointerEffect::ScrollTabs(MOUSE_TAB_SCROLL_COLS);
            }
            state.log_scroll_down(MOUSE_SCROLL_LINES);
        },
        MouseKind::ScrollLeft => {
            if e.on_tabs {
                return PointerEffect::ScrollTabs(-MOUSE_TAB_SCROLL_COLS);
            }
        },
        MouseKind::ScrollRight => {
            if e.on_tabs {
                return PointerEffect::ScrollTabs(MOUSE_TAB_SCROLL_COLS);
            }
        },
        MouseKind::LeftDown => {
            if state.notifications_visible() {
                match state.notif_copy_at(e.col, e.row) {
                    Some(text) => {
                        state.push_toast_at(
                            ToastKind::Info,
                            "copy",
                            "notification copied",
                            false,
                            now,
                        );
                        return PointerEffect::Copy(text);
                    },
                    None => {},
                }
            } else if !state.any_modal_open() {
                if state.sidebar_divider_at(e.col, e.row) {
                    state.begin_sidebar_drag();
                    state.sidebar_drag_to(e.col);
                } else if state.scrollbar_at(e.col, e.row) {
                    state.begin_scrollbar_drag();
                    state.scrollbar_drag_to(e.row);
                } else {
                    let page: i32 = e.tab_page as i32;
                    match state.target_at(e.col, e.row) {
                        Some(ClickTarget::TabScrollLeft) => {
                            return PointerEffect::ScrollTabs(-page);
                        },
                        Some(ClickTarget::TabScrollRight) => {
                            return PointerEffect::ScrollTabs(page);
                        },
                        _ => {},
                    }
                    let _hit = state.click_at(e.col, e.row);
                }
            }
        },
        MouseKind::LeftDrag => {
            if state.sidebar_dragging() {
                state.sidebar_drag_to(e.col);
            } else if state.scrollbar_dragging() {
                state.scrollbar_drag_to(e.row);
            }
        },
        MouseKind::LeftUp => {
            state.end_sidebar_drag();
            state.end_scrollbar_drag();
        },
        MouseKind::Other => {},
    }
    PointerEffect::Nothing
}

} // verus!
