//! What holds of every frame: drawing changes nothing that was reported, what
//! is selected is in view, and hit areas stay apart.
pub mod main_pane;
pub mod marks;
pub mod panes;
pub mod regions;
pub mod room;
pub mod scenes;

use vstd::prelude::*;

use crate::keymap::{binding_table, BindingView, Section};
use crate::lists::{first_index_at, first_index_is_least};
use crate::state::scroll::{page, window};
use crate::state::hits::covering;
use crate::state::{ClickRegion, ClickTarget, TuiView};

use super::dialogs::{help_line, help_lines, section_lines, sections_lines};
use super::frame::{frame_drawn, panes_divide, AroundView, Division, Panes};
use super::layout::{inside, less};
use super::paint::{LineView, Rect};
use super::sidebar::{
    shared_regions, stack_region, stack_rows, stacks_in_view, stacks_scroll, stacks_shown,
};
use super::tabs::{
    edge_region, left_cell, right_cell, row_regions, tab_scroll, tabs_drawn, tabs_go_left,
    tabs_go_right, tabs_view, visible_part, TabRow,
};
use super::viewport::{viewport_areas, viewport_drawn, viewport_message};

verus! {

/// Law: drawing a frame changes nothing that was reported, recorded, opened or
/// configured: only how the screen is divided and what the mouse will find.
pub proof fn drawing_changes_no_data(
    v: TuiView,
    row: TabRow,
    area: Rect,
    d: Division,
    around: AroundView,
)
    ensures
        ({
            let drawn = frame_drawn(v, row, area, d, around);
            &&& drawn.stacks == v.stacks
            &&& drawn.notices == v.notices
            &&& drawn.modals == v.modals
            &&& drawn.session == v.session
            &&& drawn.layout.zoom == v.layout.zoom
            &&& drawn.layout.copy_mode == v.layout.copy_mode
            &&& drawn.layout.sidebar_width == v.layout.sidebar_width
            &&& drawn.layout.sidebar_collapsed == v.layout.sidebar_collapsed
            &&& drawn.hits.sidebar_dragging == v.hits.sidebar_dragging
            &&& drawn.hits.scrollbar_dragging == v.hits.scrollbar_dragging
        }),
{
}

/// Law: the panes of the dashboard cover the screen without overlapping: the
/// footer has the last row, and the sidebar and the main pane, side by side,
/// all that is above.
pub proof fn panes_tile_the_screen(v: TuiView, area: Rect, panes: Panes)
    requires
        area.fits(),
        area.height > 0,
        panes_divide(v, area, panes),
    ensures
        panes.footer == area.row(area.y + area.height - 1),
        panes.main.y == area.y,
        panes.main.height == area.height - 1,
        panes.main.x + panes.main.width == area.x + area.width,
        match panes.sidebar {
            Some(side) => side.x == area.x && side.y == area.y && side.height == area.height - 1
                && panes.main.x == side.x + side.width,
            None => panes.main.x == area.x,
        },
{
}

/// Law: tabs, logs and the line below them fill the main pane inside its border,
/// one below the other. Where there is room, tabs and the line below the logs
/// have their rows; where there is not, the logs have none.
pub proof fn main_pane_is_filled(v: TuiView, area: Rect, panes: Panes)
    requires
        area.fits(),
        panes_divide(v, area, panes),
    ensures
        ({
            let room = inside(panes.main);
            &&& panes.tabs.y == room.y
            &&& panes.logs.y == panes.tabs.y + panes.tabs.height
            &&& panes.meta.y == panes.logs.y + panes.logs.height
            &&& panes.meta.y + panes.meta.height == room.y + room.height
            &&& room.height >= 3 ==> panes.tabs.height == 2 && panes.meta.height == 1
            &&& room.height < 3 ==> panes.logs.height == 0
        }),
{
}

/// Law: the lines that count as visible, and so the lines that a copy takes,
/// are those that the viewport has drawn.
pub proof fn visible_lines_are_those_drawn(v: TuiView, area: Rect)
    requires
        viewport_message(v, area) is None,
    ensures
        viewport_drawn(v, area).visible_lines() == window(
            v.stacks.selected_lines(),
            v.stacks.offset() as int,
            page(viewport_areas(area).0.height as usize),
        ),
{
}

/// Law: when the selection moves, the tab row scrolls so that the selected tab
/// is in view from its start, and all of it where it fits; it never scrolls
/// past the last tab. An offset set by hand stays while the selection does.
pub proof fn selected_tab_is_revealed(
    scroll: int,
    moved: bool,
    start: int,
    end: int,
    total: int,
    avail: int,
)
    requires
        0 <= scroll,
        0 <= avail,
        0 <= start <= end <= total,
    ensures
        ({
            let s = tab_scroll(scroll, moved, Some((start, end)), total, avail);
            &&& 0 <= s <= less(total, avail)
            &&& moved ==> s <= start
            &&& moved && end - start <= avail ==> end <= s + avail
            &&& !moved && scroll <= less(total, avail) ==> s == scroll
        }),
{
}

/// Law: the click regions of tabs lie in the row, clear of the markers at its
/// edges, and those of two tabs do not overlap.
pub proof fn tab_regions_stay_apart(
    area: Rect,
    scroll: int,
    left: bool,
    right: bool,
    start: int,
    end: int,
    next_start: int,
    next_end: int,
)
    requires
        area.fits(),
        0 <= scroll,
        end <= next_start,
    ensures
        visible_part(area, scroll, left, right, start, end) matches Some((sx, ex)) ==> {
            &&& area.x <= sx < ex <= area.x + area.width
            &&& left ==> area.x < sx
            &&& right ==> ex < area.x + area.width
        },
        visible_part(area, scroll, left, right, start, end) matches Some((sx, ex))
            ==> visible_part(area, scroll, left, right, next_start, next_end) matches Some((tx, ux))
            ==> ex <= tx,
{
}

/// Law: a click on an edge marker of the tab row reaches the marker, not the tab
/// that is under it.
pub proof fn edge_markers_can_be_clicked(v: TuiView, row: TabRow, area: Rect, y: u16)
    requires
        area.fits(),
        tabs_view(v).tabs.len() > 0,
        area.y <= y < area.y + area.height,
    ensures
        ({
            let hits = tabs_drawn(v, row, area).hits;
            let left = left_cell(area).x;
            let right = right_cell(area).x;
            &&& tabs_go_left(v, row, area) && v.hits.region_at(left, y) is None
                ==> hits.region_at(left, y) == Some(ClickTarget::TabScrollLeft)
            &&& tabs_go_right(v, row, area) && v.hits.region_at(right, y) is None && !(tabs_go_left(
                v,
                row,
                area,
            ) && left == right) ==> hits.region_at(right, y) == Some(ClickTarget::TabScrollRight)
        }),
{
    let before = v.hits.click_regions;
    let all = tabs_drawn(v, row, area).hits.click_regions;
    let n = tabs_view(v).tabs.len();
    assert(all == before + row_regions(v, row, area, n));
    let left = left_cell(area).x;
    let right = right_cell(area).x;
    first_index_is_least(before, covering(left, y));
    first_index_is_least(before, covering(right, y));
    if tabs_go_left(v, row, area) && v.hits.region_at(left, y) is None {
        let at = before.len() as int;
        assert(all[at] == edge_region(left_cell(area), ClickTarget::TabScrollLeft));
        assert forall|j: int| 0 <= j < at implies !covering(left, y)(all[j]) by {
            assert(all[j] == before[j]);
        }
        first_index_at(all, covering(left, y), at);
    }
    if tabs_go_right(v, row, area) && v.hits.region_at(right, y) is None && !(tabs_go_left(
        v,
        row,
        area,
    ) && left == right) {
        let at = before.len() + if tabs_go_left(v, row, area) {
            1int
        } else {
            0
        };
        assert(all[at] == edge_region(right_cell(area), ClickTarget::TabScrollRight));
        assert forall|j: int| 0 <= j < at implies !covering(right, y)(all[j]) by {
            if j < before.len() {
                assert(all[j] == before[j]);
            }
        }
        first_index_at(all, covering(right, y), at);
    }
}

/// Law: wherever the sidebar has room for a stack, the selected one is shown.
pub proof fn selected_stack_is_shown(v: TuiView, area: Rect)
    requires
        v.stacks.selected_instance is Some,
        v.stacks.selected_instance->0 < v.stacks.instances.len(),
        stack_rows(v.stacks, area) >= 2,
    ensures
        ({
            let sel = v.stacks.selected_instance->0 as int;
            stacks_scroll(v, area) <= sel < stacks_scroll(v, area) + stacks_shown(v, area)
        }),
{
    crate::state::laws::screen::selected_row_is_in_view(
        v.layout.sidebar_scroll as int,
        v.stacks.selected_instance->0 as int,
        v.stacks.instances.len() as int,
        stacks_in_view(v.stacks, area),
    );
}

/// The region's rows lie in the area.
pub open spec fn region_within(r: ClickRegion, area: Rect) -> bool {
    area.x <= r.x && r.x + r.w <= area.x + area.width && area.y <= r.y && r.y + r.h <= area.y
        + area.height
}

/// Law: the rows of the stacks that are shown lie in the sidebar, one below
/// the other, and the shared row below them where there is room for it.
pub proof fn sidebar_rows_stay_apart(v: TuiView, area: Rect, k: int, m: int)
    requires
        area.fits(),
        0 <= k <= m < stacks_shown(v, area),
    ensures
        region_within(stack_region(v, area, k), area),
        region_within(stack_region(v, area, m), area),
        k < m ==> stack_region(v, area, k).y + stack_region(v, area, k).h <= stack_region(
            v,
            area,
            m,
        ).y,
        area.height >= 5 ==> forall|i: int|
            0 <= i < shared_regions(v, area).len() ==> region_within(
                #[trigger] shared_regions(v, area)[i],
                area,
            ) && stack_region(v, area, m).y + stack_region(v, area, m).h <= shared_regions(
                v,
                area,
            )[i].y,
{
}

/// The lines of a section hold those of its bindings.
proof fn section_holds(table: Seq<BindingView>, i: int)
    requires
        0 <= i < table.len(),
    ensures
        section_lines(table, table[i].section).contains(help_line(table[i].keys, table[i].desc)),
    decreases table.len(),
{
    let s = table[i].section;
    let line = help_line(table[i].keys, table[i].desc);
    let all = section_lines(table, s);
    if i == table.len() - 1 {
        assert(all.last() == line);
    } else {
        let rest = table.drop_last();
        assert(rest[i] == table[i]);
        section_holds(rest, i);
        let before = section_lines(rest, s);
        let j = choose|j: int| 0 <= j < before.len() && before[j] == line;
        assert(all[j] == line);
    }
}

/// The lines of the first sections hold those of each of them.
proof fn sections_hold(n: nat, spaced: bool, k: int, line: LineView)
    requires
        n <= 5,
        0 <= k < n,
        section_lines(binding_table(), Section::ordered()[k]).contains(line),
    ensures
        sections_lines(n, spaced).contains(line),
    decreases n,
{
    let all = sections_lines(n, spaced);
    let own = section_lines(binding_table(), Section::ordered()[n - 1]);
    let before = sections_lines((n - 1) as nat, spaced);
    if k == n - 1 {
        let j = choose|j: int| 0 <= j < own.len() && own[j] == line;
        assert(all[all.len() - own.len() + j] == line);
    } else {
        sections_hold((n - 1) as nat, spaced, k, line);
        let j = choose|j: int| 0 <= j < before.len() && before[j] == line;
        assert(all[j] == line);
    }
}

spec fn section_place(s: Section) -> int {
    match s {
        Section::Navigation => 0,
        Section::LogViewport => 1,
        Section::ServiceActions => 2,
        Section::Worktrees => 3,
        Section::Session => 4,
    }
}

/// Law: the help overlay lists every binding of the keymap, so that nothing
/// that is bound goes unexplained.
pub proof fn help_lists_every_binding(i: int, spaced: bool)
    requires
        0 <= i < binding_table().len(),
    ensures
        help_lines(spaced).contains(help_line(binding_table()[i].keys, binding_table()[i].desc)),
{
    let b = binding_table()[i];
    let line = help_line(b.keys, b.desc);
    let k = section_place(b.section);
    section_holds(binding_table(), i);
    assert(Section::ordered()[k] == b.section);
    sections_hold(5, spaced, k, line);
    let inner = sections_lines(5, spaced);
    let j = choose|j: int| 0 <= j < inner.len() && inner[j] == line;
    assert(help_lines(spaced)[j] == line);
}

} // verus!
