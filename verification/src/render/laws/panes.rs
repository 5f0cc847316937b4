//! Panes: what the full screens, the sidebar's sections and the lists say, and
//! in what order a frame is drawn.
use vstd::prelude::*;
use vstd::utf8::encode_utf8;

use crate::protocol::{ServiceView, StepView};
use crate::render::dialogs::{global_place, project_place};
use crate::render::frame::{
    dashboard_scene, main_drawn, modal_scene, panes_scene, side_drawn, side_scene, AroundView,
    Panes,
};
use crate::render::glyphs::{color_of, host_label, label_of, step_color, step_mark};
use crate::render::notices::{notices_footer, toasts_scene};
use crate::render::paint::{bold, inked, Rect};
use crate::render::panels::{
    info_columns, info_line, label_columns, stopped_hint, stopped_lines, value_columns, FieldView,
};
use crate::render::sidebar::{section_line, stacks_header, step_line, tools_rows, tools_scene};
use crate::render::tabs::TabRow;
use crate::render::viewport::{
    copy_footer, copy_header, copy_scene, meta_line, meta_scene, viewport_areas, zoom_footer,
    zoom_header, zoom_scene,
};
use crate::state::{NoticesView, TuiView};
use crate::text::{components, decimal, is_absolute, joined};
use crate::theme::{truncated, Palette};

verus! {

/// Law: overlays are drawn last, over the toasts, and those over the panes, of which
/// the sidebar is drawn first.
pub proof fn overlays_are_drawn_last(
    v: TuiView,
    row: TabRow,
    area: Rect,
    panes: Panes,
    around: AroundView,
    ages: Seq<u64>,
)
    ensures
        ({
            let scene = dashboard_scene(v, row, area, panes, around, ages);
            let done = main_drawn(side_drawn(v, panes, area.width), row, panes);
            let top = modal_scene(done, area, around.info, around.places, ages);
            let cards = toasts_scene(panes.main, done.session.palette, done.notices.toasts);
            let side = side_scene(v, panes, around.host);
            &&& scene.skip(scene.len() - top.len()) == top
            &&& scene.subrange(scene.len() - top.len() - cards.len(), scene.len() - top.len())
                == cards
            &&& scene.take(side.len() as int) == side
            &&& panes.sidebar is None ==> side.len() == 0
        }),
{
    let scene = dashboard_scene(v, row, area, panes, around, ages);
    let done = main_drawn(side_drawn(v, panes, area.width), row, panes);
    let top = modal_scene(done, area, around.info, around.places, ages);
    let cards = toasts_scene(panes.main, done.session.palette, done.notices.toasts);
    let side = side_scene(v, panes, around.host);
    let under = panes_scene(v, row, area.width, panes, around);
    assert(scene == under + cards + top);
    assert(scene.skip(scene.len() - top.len()) =~= top);
    assert(scene.subrange(scene.len() - top.len() - cards.len(), scene.len() - top.len()) =~= cards);
    assert(under.take(side.len() as int) =~= side);
    assert(scene.take(side.len() as int) =~= under.take(side.len() as int));
}

/// Law: copy mode says that it is on, whose logs these are, and which keys copy,
/// scroll and leave.
pub proof fn copy_mode_says_what_it_is(name: Seq<char>)
    ensures
        copy_header(Some(name))[0].text == " COPY MODE "@,
        copy_header(Some(name))[1].text == " "@ + name + " "@,
        copy_header(None)[1].text == " "@ + "logs"@ + " "@,
        copy_footer()[0].text == " y "@ && copy_footer()[1].text == "copy visible  "@,
        copy_footer()[2].text == "Y "@ && copy_footer()[3].text == "copy all  "@,
        copy_footer()[6].text == "g/G "@ && copy_footer()[7].text == "top/bottom  "@,
        copy_footer()[8].text == "Esc "@ && copy_footer()[9].text == "exit"@,
{
}

/// Law: the zoomed logs say whose they are and how that service is, and which keys
/// scroll, go to the next service and leave.
pub proof fn the_zoom_says_what_it_is(p: Palette, s: ServiceView)
    ensures
        zoom_header(p, Some(s))[1].text == " "@ + s.name + " "@,
        zoom_header(p, Some(s))[2].text == label_of(s.state),
        zoom_header(p, Some(s))[2].style == bold(color_of(p, s.state)),
        zoom_header(p, None)[1].text == " "@ + "logs"@ + " "@,
        zoom_footer(p)[4].text == "hl "@ && zoom_footer(p)[5].text == "service  "@,
        zoom_footer(p)[6].text == "z/Esc "@ && zoom_footer(p)[7].text == "exit zoom"@,
{
}

/// Law: the full screens show the selected service: its name above, its logs in the
/// middle and the keys below.
pub proof fn full_screens_show_the_selected(v: TuiView, areas: (Rect, Rect, Rect))
    ensures
        ({
            let name = match v.stacks.selected() {
                Some(s) => Some(s.name),
                None => None,
            };
            let copy = copy_scene(v, areas);
            let zoom = zoom_scene(v, areas);
            &&& copy[0]->Text_lines[0] == copy_header(name) && copy[0]->Text_area == areas.0
            &&& copy[1]->Text_lines[0] == copy_footer() && copy[1]->Text_area == areas.2
            &&& v.stacks.selected() is Some ==> copy.len() == 3 && copy[2]->Logs_area == areas.1
            &&& v.stacks.selected() is None ==> copy.len() == 2
            &&& zoom[0]->Text_lines[0] == zoom_header(v.session.palette, v.stacks.selected())
            &&& zoom.last()->Text_lines[0] == zoom_footer(v.session.palette)
            &&& zoom.last()->Text_area == areas.2
        }),
{
}

/// Law: below the logs stands the selected service's line, and nothing without one.
pub proof fn the_selected_service_is_told(v: TuiView, area: Rect)
    ensures
        v.stacks.selected() matches Some(s) ==> meta_scene(v, area).len() == 1 && meta_scene(
            v,
            area,
        )[0]->Text_lines[0] == meta_line(v.session.palette, s),
        v.stacks.selected() is None ==> meta_scene(v, area).len() == 0,
{
}

/// Law: the stopped screen says what was stopped, and which keys start it again and
/// quit.
pub proof fn the_stopped_screen_says_what_stopped(p: Palette, repo: Seq<char>)
    ensures
        stopped_lines(p, Some(repo))[7][0].text == repo + " was shut down via devme down."@,
        stopped_lines(p, None)[7][0].text == "This stack"@ + " was shut down via devme down."@,
        stopped_lines(p, Some(repo))[5][0].text == "All services stopped"@,
        stopped_hint(p, "u"@, "start the stack again"@)[0].text == " "@ + "u"@ + " "@,
{
}

/// Law: the sidebar's header names the stacks, and the remote host where there is
/// one.
pub proof fn the_header_names_the_host(p: Palette, host: Seq<char>, width: int)
    ensures
        stacks_header(p, None, width)[0].text == " "@ + "stacks"@,
        stacks_header(p, None, width).len() == 1,
        stacks_header(p, Some(host), width)[0].text == " stacks"@,
        stacks_header(p, Some(host), width)[2].text == "⇅ "@ + host_label(host) + " "@,
{
}

/// Law: a dependency check's line shows its mark, in its colour, and its name, cut to
/// the sidebar.
pub proof fn checks_show_their_marks(p: Palette, s: StepView, width: int)
    requires
        width >= 3,
    ensures
        step_line(p, s, width)[1].text == step_mark(s.state),
        step_line(p, s, width)[1].style == inked(step_color(&p, s.state)),
        step_line(p, s, width)[3].text == truncated(s.name, (width - 3) as nat),
{
}

/// Law: the checks stand below a rule and their heading, in order, as many as fit; the
/// section has no rows without checks, and never more than leave the stacks two.
pub proof fn checks_stand_in_order(p: Palette, area: Rect, steps: Seq<StepView>, i: int)
    requires
        area.height >= 2,
    ensures
        ({
            let scene = tools_scene(p, area, steps);
            let n = if steps.len() < area.height - 2 {
                steps.len() as int
            } else {
                area.height - 2
            };
            &&& scene.len() == 2 + n
            &&& scene[1]->Text_lines[0] == section_line(p, "tools"@)
            &&& 0 <= i < n ==> scene[2 + i]->Text_lines[0] == step_line(
                p,
                steps[i],
                area.width as int,
            )
        }),
        tools_rows(0, area.height as int) == 0,
        steps.len() > 0 ==> tools_rows(steps.len(), area.height as int) <= area.height - 2
            && tools_rows(steps.len(), area.height as int) <= steps.len() + 2,
        steps.len() > 0 && steps.len() + 4 <= area.height ==> tools_rows(
            steps.len(),
            area.height as int,
        ) == steps.len() + 2,
{
}

/// Law: the history's footer says which notice is selected of how many.
pub proof fn the_history_counts(p: Palette, n: NoticesView)
    requires
        n.cursor < n.history.len(),
    ensures
        notices_footer(p, n)[0].text == " "@ + decimal((n.cursor + 1) as nat) + " of "@ + decimal(
            n.history.len(),
        ) + "   j/k select · c copy · Y all · n/esc close"@,
{
}

/// Law: a row of the stack's details shows its value behind its label; the selected
/// one is pointed at.
pub proof fn details_show_their_values(p: Palette, f: FieldView, selected: bool, labels: int)
    ensures
        info_line(p, f, selected, labels)[3].text == f.value,
        info_line(p, f, selected, labels)[1].text.take(f.label.len() as int) == f.label,
        info_line(p, f, selected, labels)[0].text == if selected {
            "▸ "@
        } else {
            "  "@
        },
{
    assert(info_line(p, f, selected, labels)[1].text.take(f.label.len() as int) =~= f.label);
}

/// Law: where the skill would go is told briefly: in the project, by the directory that
/// it would stand in, seen from the project; for the user, by the first directory
/// below the home. A place outside is told in full.
pub proof fn places_are_told_briefly(file: Seq<char>, root: Seq<char>, rest: Seq<Seq<char>>)
    ensures
        is_absolute(file) == is_absolute(root) && components(file) == components(root) + rest
            && rest.len() > 0 ==> {
            &&& project_place(file, root) == joined(rest.drop_last(), "/"@)
            &&& global_place(file, root) == "~/"@ + rest[0] + "/..."@
        },
        is_absolute(file) != is_absolute(root) ==> project_place(file, root) == file
            && global_place(file, root) == file,
{
    let up = components(root);
    if is_absolute(file) == is_absolute(root) && components(file) == up + rest && rest.len() > 0 {
        assert((up + rest).take(up.len() as int) =~= up);
        assert((up + rest).skip(up.len() as int) =~= rest);
    }
}

/// Law: the overlay with the stack's details is wide enough for every row, and at least
/// forty-six columns wide inside.
pub proof fn details_fit(fields: Seq<FieldView>, i: int)
    requires
        0 <= i < fields.len(),
    ensures
        info_columns(fields) >= 46,
        info_columns(fields) >= 5 + encode_utf8(fields[i].label).len() + fields[i].value.len(),
{
    widest(fields, i);
}

proof fn widest(fields: Seq<FieldView>, i: int)
    requires
        0 <= i < fields.len(),
    ensures
        label_columns(fields) >= encode_utf8(fields[i].label).len(),
        value_columns(fields) >= fields[i].value.len(),
    decreases fields.len(),
{
    if i < fields.len() - 1 {
        widest(fields.drop_last(), i);
    }
}

/// Law: the logs have a column free on their left and their right, and the scrollbar the
/// last column; a narrow pane gives the free columns up, and a very narrow one the
/// scrollbar too.
pub proof fn logs_leave_room_for_the_bar(area: Rect)
    requires
        area.fits(),
    ensures
        ({
            let (text, bar) = viewport_areas(area);
            &&& area.width >= 5 ==> text.x == area.x + 1 && text.width == area.width - 3
            &&& 3 <= area.width < 5 ==> text.x == area.x && text.width == area.width - 1
            &&& area.width < 3 ==> text == area && bar is None
            &&& area.width >= 3 ==> (bar matches Some(b) && b.width == 1 && b.x + 1 == area.x
                + area.width && b.height == area.height && b.y == area.y)
            &&& text.y == area.y && text.height == area.height
        }),
{
}

} // verus!
