//! Regions: what the mouse finds is where it is drawn.
use vstd::prelude::*;

use crate::render::notices::{notice_draw, notice_offset, notice_region, notices_shown};
use crate::render::paint::{DrawView, Rect, SpanView};
use crate::render::sidebar::{
    shared_draws, shared_regions, shared_y, stack_draws, stack_region, stacks_scroll, stacks_shown,
};
use crate::render::tabs::{
    columns_of, no_tabs_text, separator, tab_spans, tabs_go_left, tabs_go_right, tabs_scene,
    tabs_scroll, tabs_view, visible_part, TabRow, TabsView,
};
use crate::state::{ClickTarget, NoticesView, StacksView, TuiView};
use crate::theme::Palette;

verus! {

/// The text is drawn in this row.
pub open spec fn drawn_at(d: DrawView, x: u16, y: int, width: u16) -> bool {
    d->Text_area.x == x && d->Text_area.y == y && d->Text_area.width == width
        && d->Text_area.height == 1
}

/// Law: a press on either line of a stack's row, anywhere across the sidebar, finds
/// the stack that is drawn there.
pub proof fn stacks_are_found_where_drawn(p: Palette, v: TuiView, area: Rect, k: int)
    requires
        area.fits(),
        0 <= k < stacks_shown(v, area),
        area.y + 2 + 2 * k <= u16::MAX,
    ensures
        ({
            let r = stack_region(v, area, k);
            let rows = stack_draws(p, v, area, k);
            &&& r.target == ClickTarget::Stack((stacks_scroll(v, area) + k) as usize)
            &&& r.h == 2
            &&& drawn_at(rows[0], r.x, r.y as int, r.w)
            &&& drawn_at(rows[1], r.x, r.y + 1, r.w)
        }),
{
}

/// Law: a press on either line of the shared row finds it, and there is nothing to
/// find where nothing is shared.
pub proof fn the_shared_row_is_found_where_drawn(p: Palette, v: TuiView, area: Rect)
    requires
        0 <= shared_y(v, area),
        shared_y(v, area) + 3 <= u16::MAX,
    ensures
        v.stacks.shared.services.len() == 0 ==> shared_regions(v, area).len() == 0,
        v.stacks.shared.services.len() > 0 ==> ({
            let r = shared_regions(v, area)[0];
            let rows = shared_draws(p, v, area);
            &&& shared_regions(v, area).len() == 1
            &&& r.target == ClickTarget::Shared && r.h == 2
            &&& drawn_at(rows[2], r.x, r.y as int, r.w)
            &&& drawn_at(rows[3], r.x, r.y + 1, r.w)
        }),
{
}

/// Law: a press on a row of the history finds the notice that is drawn there.
pub proof fn notices_are_found_where_drawn(
    p: Palette,
    n: NoticesView,
    ages: Seq<u64>,
    inner: Rect,
    i: int,
)
    requires
        0 <= i < notices_shown(n, inner),
        inner.y + i <= u16::MAX,
    ensures
        ({
            let r = notice_region(n, inner, i);
            &&& r.target == ClickTarget::Notif((notice_offset(n, inner) + i) as usize)
            &&& r.h == 1
            &&& drawn_at(notice_draw(p, n, ages, inner, i), r.x, r.y as int, r.w)
        }),
{
}

/// Law: of a tab that stands in columns `start` to `end` of the tab row, the mouse
/// finds the columns that are on the screen, but for those under the edge
/// markers.
pub proof fn tabs_are_found_where_drawn(
    area: Rect,
    scroll: int,
    left: bool,
    right: bool,
    start: int,
    end: int,
    col: int,
)
    requires
        0 <= scroll,
        0 <= start <= end,
        area.x <= col < area.x + area.width,
    ensures
        ({
            let shown = start <= col - area.x + scroll < end;
            let under = (left && col == area.x) || (right && col == area.x + area.width - 1);
            match visible_part(area, scroll, left, right, start, end) {
                Some((from, to)) => (from <= col < to <==> shown && !under) && area.x <= from < to
                    <= area.x + area.width,
                None => !shown || under,
            }
        }),
{
}

/// The columns that spans take together.
pub open spec fn width_of(spans: Seq<SpanView>) -> nat {
    spans.fold_left(0nat, |n: nat, s: SpanView| n + s.text.len())
}

proof fn columns_are_widths(spans: Seq<SpanView>)
    ensures
        width_of(spans) <= usize::MAX ==> columns_of(spans) == width_of(spans),
        width_of(spans) > usize::MAX ==> columns_of(spans) == usize::MAX,
    decreases spans.len(),
{
    if spans.len() > 0 {
        columns_are_widths(spans.drop_last());
    }
}

proof fn widths_add_up(a: Seq<SpanView>, b: Seq<SpanView>)
    ensures
        width_of(a + b) == width_of(a) + width_of(b),
    decreases b.len(),
{
    if b.len() == 0 {
        assert(a + b =~= a);
    } else {
        widths_add_up(a, b.drop_last());
        assert((a + b).drop_last() =~= a + b.drop_last());
        assert((a + b).last() == b.last());
    }
}

/// Law: tabs stand side by side. The first starts at the left edge; a tab takes its
/// dot, its name and a space round each; a bar stands between two tabs, and the
/// word that the rest is shared before the first shared one.
pub proof fn tabs_stand_side_by_side(t: TabsView, i: int)
    requires
        0 <= i < t.tabs.len(),
        t.first_shared() != Some(0int),
        width_of(t.row((i + 1) as nat)) <= usize::MAX,
        ({
            let dot = tab_spans(t.palette, t.tabs[i], t.spinner, i == t.selected)[1].text;
            dot.len() == 1
        }),
    ensures
        t.start(0) == 0,
        t.end(i) == t.start(i) + 4 + t.tabs[i].label.len(),
        i > 0 ==> t.start(i) == t.end(i - 1) + if t.first_shared() == Some(i) {
            14int
        } else {
            3
        },
{
    let before = t.row(i as nat);
    let sep = t.separator(i);
    let tab = t.tab(i);
    assert(t.row((i + 1) as nat) == before + sep + tab);
    widths_add_up(before, sep);
    widths_add_up(before + sep, tab);
    columns_are_widths(before + sep);
    columns_are_widths(before + sep + tab);
    columns_are_widths(before);
    reveal_with_fuel(Seq::fold_left, 6);
    reveal_strlit(" ");
    assert(tab.len() == 5);
    five_widths(tab);
    if i > 0 {
        reveal_strlit("  ┊ ");
        reveal_strlit("shared");
        reveal_strlit(" ┊  ");
        reveal_strlit(" │ ");
        separator_widths(t.palette, i, t.first_shared());
    }
    columns_are_widths(t.row(0) + t.separator(0));
    assert(t.row(0) + t.separator(0) =~= Seq::<SpanView>::empty());
}

proof fn five_widths(s: Seq<SpanView>)
    requires
        s.len() == 5,
    ensures
        width_of(s) == s[0].text.len() + s[1].text.len() + s[2].text.len() + s[3].text.len()
            + s[4].text.len(),
{
    reveal_with_fuel(Seq::fold_left, 6);
    assert(s.drop_last().drop_last().drop_last().drop_last().drop_last() =~= Seq::empty());
}

proof fn separator_widths(p: Palette, i: int, first: Option<int>)
    requires
        i > 0,
    ensures
        width_of(separator(p, i, first)) == if first == Some(i) {
            14nat
        } else {
            3nat
        },
{
    reveal_with_fuel(Seq::fold_left, 4);
    reveal_strlit("  ┊ ");
    reveal_strlit("shared");
    reveal_strlit(" ┊  ");
    reveal_strlit(" │ ");
    let s = separator(p, i, first);
    if first == Some(i) {
        assert(s.drop_last().drop_last().drop_last() =~= Seq::empty());
    } else {
        assert(s.drop_last() =~= Seq::empty());
    }
}

/// Law: the tab row is drawn from its scrolled column on, with a marker at the left
/// exactly where something stands before that column, and one at the right
/// exactly where something stands behind the last one.
pub proof fn the_tab_row_is_drawn(v: TuiView, row: TabRow, area: Rect)
    requires
        tabs_view(v).tabs.len() > 0,
    ensures
        ({
            let t = tabs_view(v);
            let scene = tabs_scene(v, row, area);
            let scroll = tabs_scroll(v, row, area);
            let before = scroll > 0;
            let behind = t.total() > scroll + area.width;
            &&& 0 <= scroll ==> (tabs_go_left(v, row, area) <==> before)
            &&& 0 <= scroll ==> (tabs_go_right(v, row, area) <==> behind)
            &&& scene[0]->Text_lines[0] == t.row(t.tabs.len())
            &&& scene.len() == 1 + (if tabs_go_left(v, row, area) {
                1int
            } else {
                0
            }) + (if tabs_go_right(v, row, area) {
                1int
            } else {
                0
            })
            &&& tabs_go_left(v, row, area) ==> scene[1]->Text_lines[0][0].text == "‹"@
                && scene[1]->Text_area.x == area.x
            &&& tabs_go_right(v, row, area) ==> scene.last()->Text_lines[0][0].text == "›"@
        }),
{
}

/// Law: a stack without tabs says why: its directory has no configuration, or its
/// configuration declares no services.
pub proof fn missing_tabs_say_why(s: StacksView)
    ensures
        s.current_vacant() ==> no_tabs_text(s) == "no devme.toml in "@ + s.current_cwd()
            + " — add one to start services"@,
        !s.current_vacant() ==> no_tabs_text(s) == "no services declared in devme.toml"@,
{
}

/// Law: the tab row scrolls by hand by as many columns as it is told, not beyond its
/// left end; scrolling back undoes it.
pub proof fn the_tab_row_scrolls_by_hand(row: TabRow, cols: i32)
    requires
        cols > i32::MIN,
        row.scroll + cols <= usize::MAX,
    ensures
        row.scroll + cols >= 0 ==> row.moved(cols).scroll == row.scroll + cols && row.moved(
            cols,
        ).moved((-cols) as i32) == row,
        row.scroll + cols < 0 ==> row.moved(cols).scroll == 0,
        row.moved(cols).context == row.context && row.moved(cols).area == row.area,
{
}

} // verus!
