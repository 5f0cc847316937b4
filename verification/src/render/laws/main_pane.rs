//! The main pane and the sidebar: what is shown in place of logs, how rows are
//! counted out, and what a frame remembers for the next.
use vstd::prelude::*;

use crate::render::frame::{cleared, side_drawn, Panes};
use crate::render::paint::{Rect, RunView};
use crate::render::sidebar::{stack_rows, stacks_in_view, stacks_scroll, stacks_shown};
use crate::render::tabs::{row_drawn, tab_selected, tabs_scroll, tabs_stack, tabs_view, TabRow};
use crate::render::viewport::{
    ansi_parsed, bare, logs_scene, no_logs_text, raw_lines, shown_of, styled_logs, viewport_areas,
    viewport_scene,
};
use crate::state::laws::tabs::{
    own_of, own_tabs_come_first, owned_is_own, services_are_the_rows_own,
};
use crate::state::{InstanceView, StacksView, TuiView};
use crate::text::laws::{free_of, lines_end_at_newlines};

verus! {

/// The placeholder tab is the selected one: the stack has no services of its own,
/// there are shared ones, and its first tab, or none, is selected.
pub open spec fn placeholder_selected(s: StacksView, row: InstanceView) -> bool {
    &&& !s.shared_selected
    &&& own_of(row.services, s.shared.services).len() == 0
    &&& s.shared.services.len() > 0
    &&& row.selected_service is None || row.selected_service == Some(0usize)
}

/// Law: what stands where the logs go. On the placeholder tab it is why the stack has
/// no services; without a selected service that there is none; for one without
/// lines why it has none; and otherwise its logs.
pub proof fn what_stands_where_the_logs_go(
    v: TuiView,
    area: Rect,
    row: InstanceView,
    at: usize,
)
    requires
        v.stacks.selected_instance == Some(at),
        at < v.stacks.instances.len(),
        v.stacks.instances[at as int] == row,
    ensures
        ({
            let s = v.stacks;
            let scene = viewport_scene(v, area);
            let said = scene[0]->Text_lines;
            if placeholder_selected(s, row) {
                scene.len() == 1 && said.len() == raw_lines(s.explanation()).len() && forall|i: int|
                    0 <= i < said.len() ==> (#[trigger] said[i])[0].text == raw_lines(
                        s.explanation(),
                    )[i]
            } else {
                match s.selected() {
                    None => scene.len() == 1 && said[0][0].text == "no service selected"@,
                    Some(x) => if s.lines(x.name).len() == 0 {
                        scene.len() == 1 && said[0][0].text == no_logs_text(x.state)
                    } else {
                        scene == logs_scene(
                            s.lines(x.name),
                            s.offset() as int,
                            viewport_areas(area).0,
                            viewport_areas(area).1,
                        )
                    },
                }
            }
        }),
{
    services_are_the_rows_own(v.stacks, row, at);
    own_tabs_come_first(v.stacks, row, at);
    owned_is_own(row.services, v.stacks.shared.services);
}

/// Law: log lines are shown one below the other, each as its escape sequences style it;
/// a line whose sequences make no sense is shown as it is.
pub proof fn lines_are_shown_in_order(lines: Seq<Seq<char>>, line: Seq<char>)
    ensures
        styled_logs(Seq::empty()) == Seq::<Seq<RunView>>::empty(),
        styled_logs(lines.push(line)) == styled_logs(lines) + shown_of(line, ansi_parsed(line)),
        ansi_parsed(line) matches Some(styled) ==> shown_of(line, ansi_parsed(line)) == styled,
        ansi_parsed(line) is None && line.len() > 0 && free_of(line, '\n') ==> shown_of(
            line,
            ansi_parsed(line),
        ) == seq![seq![bare(line)]],
{
    assert(lines.push(line).drop_last() =~= lines);
    if free_of(line, '\n') && line.len() > 0 && ansi_parsed(line) is None {
        lines_end_at_newlines(line, Seq::empty());
        assert(shown_of(line, None) =~= seq![seq![bare(line)]]);
    }
}

/// Law: the sidebar gives a row to its header and four to the shared row where there is
/// one; of what is left each stack takes two, and no stack is shown in half.
pub proof fn rows_are_counted_out(v: TuiView, area: Rect)
    ensures
        ({
            let taken: int = if v.stacks.shared.services.len() > 0 {
                5
            } else {
                1
            };
            let left = stack_rows(v.stacks, area);
            &&& area.height >= taken ==> left == area.height - taken
            &&& area.height < taken ==> left == 0
            &&& left >= 2 ==> stacks_in_view(v.stacks, area) == left / 2
            &&& 2 * stacks_shown(v, area) <= left
            &&& stacks_shown(v, area) <= v.stacks.instances.len() - stacks_scroll(v, area)
        }),
{
}

/// Law: a frame remembers which tab it showed, so that the next one leaves the tab row
/// where it is until another tab or another stack is selected.
pub proof fn frames_remember_the_tab(v: TuiView, row: TabRow, area: Rect)
    requires
        tabs_view(v).tabs.len() > 0,
        0 <= tabs_scroll(v, row, area) <= usize::MAX,
        tabs_view(v).total() <= usize::MAX,
    ensures
        ({
            let next = row_drawn(v, row, area);
            &&& next.context == Some((tabs_stack(v.stacks), tab_selected(v.stacks)))
            &&& next.area == Some(area)
            &&& next.scroll == tabs_scroll(v, row, area)
            &&& tabs_scroll(v, next, area) == tabs_scroll(v, row, area)
        }),
{
}

/// Law: the edge between the sidebar and the main pane can be grabbed where it is drawn,
/// from the top of the panes to their bottom; a folded sidebar has no edge.
pub proof fn the_edge_is_where_it_is_drawn(v: TuiView, panes: Panes, width: u16)
    ensures
        panes.sidebar is Some ==> (side_drawn(cleared(v), panes, width).hits.sidebar_divider
            matches Some(d) && d.x == panes.main.x && d.y == panes.body.y && d.h
            == panes.body.height && d.total_width == width),
        panes.sidebar is None ==> side_drawn(cleared(v), panes, width).hits.sidebar_divider is None,
        cleared(v).hits.click_regions.len() == 0 && cleared(v).hits.scrollbar_hit is None,
{
}

} // verus!
