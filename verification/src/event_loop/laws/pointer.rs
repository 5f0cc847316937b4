//! The pointer: what a press, a drag and the wheel do where they happen.
use std::time::Instant;

use vstd::prelude::*;

use crate::event_loop::pointer::{
    copied_notice, shape_over, tab_columns, wanted_shape, MouseEvent, MouseKind, PointerShape,
};
use crate::lists::{first_index_at, first_index_is_least, first_index_none};
use crate::state::laws::lines::scrolling_counts_lines;
use crate::state::laws::logs::scrollable;
use crate::state::{ClickRegion, ClickTarget, Layout, StacksView, ToastKind, ToastView, TuiView};
use crate::state::hits::covering;

verus! {

/// The cell lies in the region.
pub open spec fn within(r: ClickRegion, col: u16, row: u16) -> bool {
    &&& r.x <= col && col < r.x + r.w
    &&& r.y <= row && row < r.y + r.h
}

/// Nothing is open over the dashboard.
pub open spec fn nothing_open(v: TuiView) -> bool {
    &&& !v.modals.help_visible && !v.modals.quit_confirm
    &&& v.modals.skill_dialog is None && v.modals.settings is None
    &&& v.modals.port_conflict is None && !v.notices.visible
}

/// The cell is on the sidebar's edge: the column of the divider or the one left
/// of it.
pub open spec fn at_the_edge(v: TuiView, col: u16, row: u16) -> bool {
    v.hits.sidebar_divider matches Some(d) && d.y <= row && row < d.y + d.h && (col == d.x || col
        + 1 == d.x)
}

/// The cell is on the scrollbar.
pub open spec fn at_the_scrollbar(v: TuiView, col: u16, row: u16) -> bool {
    v.hits.scrollbar_hit matches Some(h) && h.y <= row && row < h.y + h.h && col == h.x
}

proof fn first_region(v: TuiView, col: u16, row: u16, i: int)
    requires
        0 <= i < v.hits.click_regions.len(),
        within(v.hits.click_regions[i], col, row),
        forall|j: int| 0 <= j < i ==> !within(#[trigger] v.hits.click_regions[j], col, row),
    ensures
        v.hits.region_at(col, row) == Some(v.hits.click_regions[i].target),
{
    let all = v.hits.click_regions;
    assert forall|j: int| 0 <= j < i implies !covering(col, row)(all[j]) by {
        assert(!within(all[j], col, row));
    }
    first_index_at(all, covering(col, row), i);
}

/// Law: a press selects what is drawn under the pointer. On a stack's row it
/// selects that stack and leaves the shared row; on the shared row it selects
/// that, and no stack is forgotten; on a tab it selects the tab of the row that
/// is shown. Where two things are drawn the first one counts.
pub proof fn a_press_selects_what_is_under_it(
    v: TuiView,
    e: MouseEvent,
    now: Instant,
    i: int,
)
    requires
        e.kind == MouseKind::LeftDown,
        nothing_open(v),
        !at_the_edge(v, e.col, e.row),
        !at_the_scrollbar(v, e.col, e.row),
        0 <= i < v.hits.click_regions.len(),
        within(v.hits.click_regions[i], e.col, e.row),
        forall|j: int| 0 <= j < i ==> !within(#[trigger] v.hits.click_regions[j], e.col, e.row),
    ensures
        ({
            let after = v.pointed(e, now);
            match v.hits.click_regions[i].target {
                ClickTarget::Stack(n) => after == (TuiView {
                    stacks: StacksView {
                        shared_selected: false,
                        selected_instance: Some(n),
                        ..v.stacks
                    },
                    ..v
                }),
                ClickTarget::Shared => after == (TuiView {
                    stacks: StacksView { shared_selected: true, ..v.stacks },
                    ..v
                }),
                ClickTarget::Tab(n) => after == (TuiView {
                    stacks: v.stacks.with_selected(Some(n)),
                    ..v
                }),
                _ => after == v,
            }
        }),
{
    first_region(v, e.col, e.row, i);
}

/// Law: a press where nothing is drawn that can be pressed does nothing.
pub proof fn a_press_beside_everything_does_nothing(v: TuiView, e: MouseEvent, now: Instant)
    requires
        e.kind == MouseKind::LeftDown,
        nothing_open(v),
        !at_the_edge(v, e.col, e.row),
        !at_the_scrollbar(v, e.col, e.row),
        forall|j: int|
            0 <= j < v.hits.click_regions.len() ==> !within(
                #[trigger] v.hits.click_regions[j],
                e.col,
                e.row,
            ),
    ensures
        v.pointed(e, now) == v,
        tab_columns(v, e) is None,
{
    let all = v.hits.click_regions;
    assert forall|j: int| 0 <= j < all.len() implies !covering(e.col, e.row)(all[j]) by {
        assert(!within(all[j], e.col, e.row));
    }
    first_index_none(all, covering(e.col, e.row));
}

/// Law: a press on the sidebar's edge grabs it, and one on the scrollbar grabs
/// that; what is grabbed follows the pointer at once and while it is dragged,
/// and neither moves the other.
pub proof fn what_is_grabbed_follows(v: TuiView, press: MouseEvent, now: Instant)
    requires
        press.kind == MouseKind::LeftDown,
        nothing_open(v),
    ensures
        ({
            let after = v.pointed(press, now);
            let edge = at_the_edge(v, press.col, press.row);
            let bar = at_the_scrollbar(v, press.col, press.row);
            &&& edge ==> after.hits.sidebar_dragging && after.stacks == v.stacks
                && after.hits.scrollbar_dragging == v.hits.scrollbar_dragging
            &&& bar && !edge ==> after.hits.scrollbar_dragging && after.layout == v.layout
                && after.hits.sidebar_dragging == v.hits.sidebar_dragging
            &&& !edge && !bar ==> after.hits == v.hits
        }),
{
}

/// The width that the sidebar gets when its edge is at `col`, on a screen `total`
/// wide: at least sixteen, and leaving the main pane twenty-four where both fit.
pub open spec fn fitting_width(col: u16, total: u16) -> int {
    let widest: int = if total >= 40 {
        total - 24
    } else {
        16
    };
    if col < 16 {
        16
    } else if col > widest {
        widest
    } else {
        col as int
    }
}

/// Law: the dragged edge sets the sidebar's width to the pointer's column, within
/// bounds; nothing else changes.
pub proof fn dragging_the_edge_sets_the_width(v: TuiView, drag: MouseEvent, now: Instant)
    requires
        drag.kind == MouseKind::LeftDrag,
    ensures
        ({
            let after = v.pointed(drag, now);
            &&& v.hits.sidebar_dragging ==> match v.hits.sidebar_divider {
                Some(d) => after == (TuiView {
                    layout: Layout {
                        sidebar_width: fitting_width(drag.col, d.total_width) as u16,
                        ..v.layout
                    },
                    ..v
                }),
                None => after == v,
            }
            &&& !v.hits.sidebar_dragging ==> after.layout == v.layout
            &&& !v.hits.sidebar_dragging && !v.hits.scrollbar_dragging ==> after == v
        }),
{
}

/// Law: the wheel scrolls the logs by three lines, back when turned up and forth
/// when turned down; over the tabs it moves the tab row by four columns instead,
/// left when turned up, and the logs stay.
pub proof fn the_wheel_scrolls_what_is_under_it(v: TuiView, e: MouseEvent, now: Instant)
    requires
        scrollable(v.stacks),
        v.stacks.selected_lines().len() <= usize::MAX,
    ensures
        ({
            let older = v.stacks.selected_lines().len() - v.layout.viewport_height;
            let most = if older > 0 {
                older
            } else {
                0
            };
            let at = v.stacks.offset();
            let after = v.pointed(e, now);
            &&& e.kind == MouseKind::ScrollUp && !e.on_tabs ==> tab_columns(v, e) is None
                && after.stacks.offset() == if at + 3 < most {
                at + 3
            } else {
                most
            }
            &&& e.kind == MouseKind::ScrollDown && !e.on_tabs ==> tab_columns(v, e) is None
                && after.stacks.offset() == if at > 3 {
                at - 3
            } else {
                0
            }
            &&& e.on_tabs && (e.kind == MouseKind::ScrollUp || e.kind == MouseKind::ScrollLeft)
                ==> after == v && tab_columns(v, e) == Some(-4i32)
            &&& e.on_tabs && (e.kind == MouseKind::ScrollDown || e.kind == MouseKind::ScrollRight)
                ==> after == v && tab_columns(v, e) == Some(4i32)
            &&& !e.on_tabs && (e.kind == MouseKind::ScrollLeft || e.kind == MouseKind::ScrollRight)
                ==> after == v && tab_columns(v, e) is None
        }),
{
    scrolling_counts_lines(v.stacks, 3, v.layout.viewport_height);
}

/// Law: in the history a press on a notice moves the cursor there and copies it,
/// and a press beside them all does nothing.
pub proof fn a_press_copies_a_notice(v: TuiView, e: MouseEvent, now: Instant, i: int, d: usize)
    requires
        e.kind == MouseKind::LeftDown,
        v.notices.visible,
        v.notices.history.len() > 0,
        0 <= i < v.hits.click_regions.len(),
        within(v.hits.click_regions[i], e.col, e.row),
        v.hits.click_regions[i].target == ClickTarget::Notif(d),
        forall|j: int| 0 <= j < i ==> !within(#[trigger] v.hits.click_regions[j], e.col, e.row),
    ensures
        copied_notice(v, e) == Some(d),
        v.pointed(e, now).notices.cursor == d,
        v.pointed(e, now).notices.history == v.notices.history,
        v.pointed(e, now).notices.toasts.len() > 0 && v.pointed(e, now).notices.toasts.last()
            == (ToastView {
            kind: ToastKind::Info,
            title: "copy"@,
            body: "notification copied"@,
            born: now,
        }),
{
    first_region(v, e.col, e.row, i);
}

/// Law: the pointer shows what it can do. While something is dragged it keeps the
/// shape of that; otherwise it is a sideways arrow on the sidebar's edge, an
/// upright one on the scrollbar, a hand on what can be pressed, and plain
/// elsewhere.
pub proof fn the_pointer_shows_what_it_can_do(v: TuiView, col: u16, row: u16, under: PointerShape)
    ensures
        ({
            let pressable = exists|i: int|
                0 <= i < v.hits.click_regions.len() && within(
                    #[trigger] v.hits.click_regions[i],
                    col,
                    row,
                );
            &&& shape_over(v, col, row) == PointerShape::ColResize <==> at_the_edge(v, col, row)
            &&& shape_over(v, col, row) == PointerShape::RowResize <==> !at_the_edge(v, col, row)
                && at_the_scrollbar(v, col, row)
            &&& shape_over(v, col, row) == PointerShape::Pointer <==> !at_the_edge(v, col, row)
                && !at_the_scrollbar(v, col, row) && pressable
            &&& v.hits.sidebar_dragging ==> wanted_shape(v, under) == PointerShape::ColResize
            &&& !v.hits.sidebar_dragging && v.hits.scrollbar_dragging ==> wanted_shape(v, under)
                == PointerShape::RowResize
            &&& !v.hits.sidebar_dragging && !v.hits.scrollbar_dragging ==> wanted_shape(v, under)
                == under
        }),
{
    let all = v.hits.click_regions;
    first_index_is_least(all, covering(col, row));
    if exists|i: int| 0 <= i < all.len() && within(#[trigger] all[i], col, row) {
        let i = choose|i: int| 0 <= i < all.len() && within(#[trigger] all[i], col, row);
        assert(covering(col, row)(all[i]));
    }
}

/// Law: the terminal is told the pointer's shape by its name.
pub proof fn shapes_have_names()
    ensures
        PointerShape::Arrow.keyword() == "default"@,
        PointerShape::Pointer.keyword() == "pointer"@,
        PointerShape::ColResize.keyword() == "ew-resize"@,
        PointerShape::RowResize.keyword() == "ns-resize"@,
{
}

} // verus!
