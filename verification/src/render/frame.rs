//! The whole frame: the dashboard's panes, its footer, and what is on top.
use vstd::prelude::*;

use crate::keymap::{binding_table, footer_hints, hints_of};
use crate::lists::views;
use crate::state::{HitsView, SidebarDivider, TuiState, TuiView};
use crate::text::opt_str;
use crate::theme::Palette;

use super::dialogs::{
    conflict_scene, help_scene, quit_scene, render_help_overlay, render_port_conflict_dialog,
    render_quit_confirm, render_skill_dialog, skill_scene, PlacesView, SkillPlaces,
};
use super::layout::{
    head_and_rest, inner, inside, rest_and_tail, split_head, split_rows, split_tail, stacked, Axis,
};
use super::notices::{
    notices_regions, notices_scene, render_notifications_overlay, render_toasts, toasts_scene,
};
use super::paint::{
    bold, coloured, draw_also, draw_line, inked, joined2, joined3, line, line_at, one, plain, sp, span,
    span_of, Draw, DrawView, Flow, Ink, Line, LineView, Rect, Span, SpanView,
};
use super::panels::{
    info_fits, info_scene, render_settings_overlay, render_stack_info_overlay, render_stopped,
    settings_scene, stopped_scene, StackInfo, StackInfoView,
};
use super::sidebar::{render_sidebar, sidebar_drawn, sidebar_scene};
use super::tabs::{
    format_main_title, render_tabs, row_drawn, tabs_drawn, tabs_scene, title_line, TabRow,
};
use super::viewport::{
    copy_drawn, copy_scene, meta_scene, render_copy_mode, render_log_viewport,
    render_service_meta, render_zoom, viewport_drawn, viewport_scene, zoom_scene,
};

verus! {

/// Where the focus is: the stack and its service.
pub open spec fn breadcrumb(v: TuiView) -> Seq<char> {
    " "@ + (if v.stacks.shared_selected {
        "shared"@
    } else {
        match v.stacks.current() {
            Some(i) => i.info.label,
            None => Seq::empty(),
        }
    }) + " › "@ + (match v.stacks.selected() {
        Some(s) => s.name,
        None => "—"@,
    }) + " "@
}

/// The first `n` key hints, two spaces between them.
pub open spec fn hint_spans(p: Palette, hints: Seq<(Seq<char>, Seq<char>)>, n: nat) -> Seq<
    SpanView,
>
    decreases n,
{
    if n == 0 {
        Seq::empty()
    } else {
        let (keys, label) = hints[n - 1];
        hint_spans(p, hints, (n - 1) as nat).push(sp(keys + " "@, bold(p.accent))).push(
            sp(
                label + if n < hints.len() {
                    "  "@
                } else {
                    ""@
                },
                inked(p.overlay0),
            ),
        )
    }
}

/// The hint that a skill can be installed.
pub open spec fn skill_hint() -> LineView {
    seq![
        sp("hint: "@, coloured(Ink::DarkGray)),
        sp("devme skill install"@, coloured(Ink::Yellow)),
        sp("  (suppress: "@, coloured(Ink::DarkGray)),
        sp("devme config set hints.skills false"@, coloured(Ink::DarkGray)),
        sp(")"@, coloured(Ink::DarkGray)),
    ]
}

/// The middle of the footer: the skill hint, or the keys that the keymap marks
/// for it.
pub open spec fn footer_centre(p: Palette, skill: bool) -> LineView {
    if skill {
        skill_hint()
    } else {
        let hints = hints_of(binding_table());
        hint_spans(p, hints, hints.len())
    }
}

/// The two parts of the footer.
pub open spec fn footer_areas(area: Rect) -> (Rect, Rect) {
    head_and_rest(area, Axis::Across, 24)
}

/// The status bar.
pub open spec fn footer_scene(v: TuiView, left: Rect, centre: Rect, skill: bool) -> Seq<DrawView> {
    let p = v.session.palette;
    seq![
        line_at(left, seq![sp(breadcrumb(v), bold(p.text))], plain()),
        DrawView::Text {
            area: centre,
            lines: seq![footer_centre(p, skill)],
            flow: Flow::Centred,
            fill: plain(),
        },
    ]
}

fn skill_hint_text() -> (r: Line)
    ensures
        r@ == skill_hint(),
{
    let dim = coloured(Ink::DarkGray);
    let mut spans: Vec<Span> = Vec::new();
    spans.push(span("hint: ", dim));
    spans.push(span("devme skill install", coloured(Ink::Yellow)));
    spans.push(span("  (suppress: ", dim));
    spans.push(span("devme config set hints.skills false", dim));
    spans.push(span(")", dim));
    assert(views(spans@) =~= skill_hint());
    line(spans)
}

fn key_hints_text(p: &Palette) -> (r: Line)
    ensures
        r@ == footer_centre(*p, false),
{
    let hints = footer_hints();
    let ghost all = hints_of(binding_table());
    let mut spans: Vec<Span> = Vec::new();
    assert(views(spans@) =~= hint_spans(*p, all, 0));
    let mut i: usize = 0;
    while i < hints.len()
        invariant
            i <= hints.len(),
            all == views(hints@),
            views(spans@) == hint_spans(*p, all, i as nat),
        decreases hints.len() - i,
    {
        assert(all[i as int] == hints@[i as int]@);
        let gap = if i + 1 < hints.len() {
            "  "
        } else {
            ""
        };
        spans.push(span_of(joined2(hints[i].keys, " "), bold(p.accent)));
        spans.push(span_of(joined2(hints[i].label, gap), inked(p.overlay0)));
        i = i + 1;
        assert(views(spans@) =~= hint_spans(*p, all, i as nat));
    }
    line(spans)
}

/// Draws the status bar into its two parts. `skill` says whether the skill hint
/// is due.
pub fn render_footer_in(left: Rect, centre: Rect, state: &TuiState, skill: bool) -> (r: Vec<Draw>)
    ensures
        views(r@) == footer_scene(state@, left, centre, skill),
{
    let p = *state.palette();
    let stack = if state.shared_selected() {
        "shared"
    } else {
        state.instance_label()
    };
    let service = match state.selected_service() {
        Some(s) => s.name.as_str(),
        None => "—",
    };
    let mut crumb = joined3(" ", stack, " › ");
    crumb.append(service);
    crumb.append(" ");
    let text = if skill {
        skill_hint_text()
    } else {
        key_hints_text(&p)
    };
    let ghost t = text@;
    let mut lines: Vec<Line> = Vec::new();
    lines.push(text);
    assert(views(lines@) =~= seq![t]);
    let mut r: Vec<Draw> = Vec::new();
    r.push(draw_line(left, one(crumb.as_str(), bold(p.text)), plain()));
    r.push(Draw::Text { area: centre, lines, flow: Flow::Centred, fill: plain() });
    assert(views(r@) =~= footer_scene(state@, left, centre, skill));
    r
}

/// Draws the status bar: where the focus is, and the most used keys.
pub fn render_footer(area: Rect, state: &TuiState, skill: bool) -> (r: Vec<Draw>)
    requires
        area.fits(),
    ensures
        views(r@) == footer_scene(
            state@,
            footer_areas(area).0,
            footer_areas(area).1,
            skill,
        ),
{
    let (left, centre) = split_head(area, Axis::Across, 24);
    render_footer_in(left, centre, state, skill)
}

/// Where the panes of the dashboard go.
#[derive(Debug, Clone, Copy, PartialEq, Eq, Structural)]
pub struct Panes {
    /// The sidebar, unless it is collapsed.
    pub sidebar: Option<Rect>,
    pub main: Rect,
    /// Tabs, logs and the line below them, inside the main pane's border.
    pub tabs: Rect,
    pub logs: Rect,
    pub meta: Rect,
    pub footer: Rect,
    /// The area above the footer.
    pub body: Rect,
}

/// How the dashboard divides the screen: the footer takes the last row, the
/// sidebar its width of what is above, and the main pane the rest.
pub open spec fn panes_divide(v: TuiView, area: Rect, panes: Panes) -> bool {
    let (body, footer) = rest_and_tail(area, Axis::Down, 0, 1);
    let (side, rest) = head_and_rest(body, Axis::Across, v.layout.sidebar_width);
    &&& panes.body == body
    &&& panes.footer == footer
    &&& if v.layout.sidebar_collapsed {
        panes.sidebar is None && panes.main == body
    } else {
        panes.sidebar == Some(side) && panes.main == rest
    }
    &&& stacked(inside(panes.main), 2, 1, (panes.tabs, panes.logs, panes.meta))
}

/// What is inside the main pane's border.
pub open spec fn main_content(v: TuiView, row: TabRow, panes: Panes) -> Seq<DrawView> {
    let tabbed = tabs_drawn(v, row, panes.tabs);
    tabs_scene(v, row, panes.tabs) + viewport_scene(tabbed, panes.logs) + meta_scene(
        viewport_drawn(tabbed, panes.logs),
        panes.meta,
    )
}

/// The state after the main pane was drawn.
pub open spec fn main_drawn(v: TuiView, row: TabRow, panes: Panes) -> TuiView {
    viewport_drawn(tabs_drawn(v, row, panes.tabs), panes.logs)
}

/// The main pane.
pub open spec fn main_scene(
    v: TuiView,
    row: TabRow,
    panes: Panes,
    version: Seq<char>,
    host: Option<Seq<char>>,
) -> Seq<DrawView> {
    seq![
        DrawView::Frame {
            area: panes.main,
            title: title_line(v.session.palette, v.stacks.services(), version, host),
            border: Ink::Theme(v.session.palette.surface1),
            background: None,
        },
    ] + main_content(v, row, panes)
}

/// Draws the main pane.
pub fn render_main(
    panes: Panes,
    state: &mut TuiState,
    row: &mut TabRow,
    version: &str,
    host: Option<&str>,
) -> (r: Vec<Draw>)
    requires
        panes.tabs.roomy(),
        panes.logs.fits(),
        old(state).wf(),
    ensures
        final(state).wf(),
        final(state)@ == main_drawn(old(state)@, *old(row), panes),
        *final(row) == row_drawn(old(state)@, *old(row), panes.tabs),
        views(r@) == main_scene(old(state)@, *old(row), panes, version@, opt_str(host)),
{
    let ghost v = state@;
    let ghost was = *row;
    let p = *state.palette();
    let mut r: Vec<Draw> = Vec::new();
    r.push(
        Draw::Frame {
            area: panes.main,
            title: format_main_title(state, version, host),
            border: Ink::Theme(p.surface1),
            background: None,
        },
    );
    let ghost head = views(r@);
    let tabs = render_tabs(panes.tabs, state, row);
    draw_also(&mut r, tabs);
    let logs = render_log_viewport(panes.logs, state);
    draw_also(&mut r, logs);
    let meta = render_service_meta(panes.meta, state);
    draw_also(&mut r, meta);
    assert(views(r@) =~= head + main_content(v, was, panes));
    r
}

/// The modal on top: the first of these that is up.
pub open spec fn modal_scene(
    v: TuiView,
    area: Rect,
    info: Option<StackInfoView>,
    places: PlacesView,
    ages: Seq<u64>,
) -> Seq<DrawView> {
    let p = v.session.palette;
    if v.modals.port_conflict is Some {
        conflict_scene(area, v.modals.port_conflict->0)
    } else if v.modals.skill_dialog is Some {
        skill_scene(area, v.modals.skill_dialog->0, places)
    } else if v.modals.quit_confirm {
        quit_scene(area, p)
    } else if v.modals.settings is Some {
        settings_scene(area, p, v.modals.settings->0)
    } else if info is Some {
        info_scene(area, p, info->0)
    } else if v.notices.visible {
        notices_scene(area, p, v.notices, ages)
    } else if v.modals.help_visible {
        help_scene(area)
    } else {
        Seq::empty()
    }
}

/// The notifications modal is the one on top.
pub open spec fn notices_on_top(v: TuiView, info: Option<StackInfoView>) -> bool {
    v.modals.port_conflict is None && v.modals.skill_dialog is None && !v.modals.quit_confirm
        && v.modals.settings is None && info is None && v.notices.visible
}

/// The state after the modal was drawn.
pub open spec fn modal_drawn(v: TuiView, area: Rect, info: Option<StackInfoView>) -> TuiView {
    if notices_on_top(v, info) {
        v.with_regions(notices_regions(area, v.notices))
    } else {
        v
    }
}

pub open spec fn info_view(info: Option<&StackInfo>) -> Option<StackInfoView> {
    match info {
        Some(i) => Some(i@),
        None => None,
    }
}

/// Draws the modal on top. A crash on bind needs attention before anything
/// else.
pub fn render_modal(
    area: Rect,
    state: &mut TuiState,
    info: Option<&StackInfo>,
    places: SkillPlaces<'_>,
    ages: &Vec<u64>,
) -> (r: Vec<Draw>)
    requires
        area.fits(),
        old(state).wf(),
        ages@.len() == old(state)@.notices.history.len(),
        info matches Some(i) ==> info_fits(area, i@),
    ensures
        final(state).wf(),
        final(state)@ == modal_drawn(old(state)@, area, info_view(info)),
        views(r@) == modal_scene(old(state)@, area, info_view(info), places@, ages@),
{
    let p = *state.palette();
    match state.port_conflict() {
        Some(d) => {
            return render_port_conflict_dialog(area, d);
        },
        None => {},
    }
    match state.skill_dialog() {
        Some(d) => {
            return render_skill_dialog(area, d, places);
        },
        None => {},
    }
    if state.quit_confirm_visible() {
        return render_quit_confirm(area, &p);
    }
    match state.settings() {
        Some(s) => {
            return render_settings_overlay(area, &p, s);
        },
        None => {},
    }
    match info {
        Some(i) => {
            return render_stack_info_overlay(area, &p, i);
        },
        None => {},
    }
    if state.notifications_visible() {
        return render_notifications_overlay(area, state, ages);
    }
    if state.help_visible() {
        return render_help_overlay(area);
    }
    let r: Vec<Draw> = Vec::new();
    assert(views(r@) =~= Seq::empty());
    r
}

/// What a frame shows beside the state.
pub struct Surroundings<'a> {
    pub version: &'a str,
    /// The machine that the stacks live on, where that is another one.
    pub host: Option<&'a str>,
    /// The stack-info modal, while it is up.
    pub info: Option<&'a StackInfo>,
    /// The skill hint is due.
    pub skill: bool,
    pub places: SkillPlaces<'a>,
}

pub ghost struct AroundView {
    pub version: Seq<char>,
    pub host: Option<Seq<char>>,
    pub info: Option<StackInfoView>,
    pub skill: bool,
    pub places: PlacesView,
}

impl<'a> View for Surroundings<'a> {
    type V = AroundView;

    open spec fn view(&self) -> AroundView {
        AroundView {
            version: self.version@,
            host: opt_str(self.host),
            info: info_view(self.info),
            skill: self.skill,
            places: self.places@,
        }
    }
}

/// The state after the sidebar was drawn: its divider can be dragged.
pub open spec fn side_drawn(v: TuiView, panes: Panes, width: u16) -> TuiView {
    match panes.sidebar {
        Some(side) => {
            let drawn = sidebar_drawn(v, side);
            TuiView {
                hits: HitsView {
                    sidebar_divider: Some(
                        SidebarDivider {
                            x: panes.main.x,
                            y: panes.body.y,
                            h: panes.body.height,
                            total_width: width,
                        },
                    ),
                    ..drawn.hits
                },
                ..drawn
            }
        },
        None => v,
    }
}

pub open spec fn side_scene(v: TuiView, panes: Panes, host: Option<Seq<char>>) -> Seq<DrawView> {
    match panes.sidebar {
        Some(side) => sidebar_scene(v, side, host),
        None => Seq::empty(),
    }
}

/// The state after the dashboard was drawn.
pub open spec fn dashboard_drawn(
    v: TuiView,
    row: TabRow,
    area: Rect,
    panes: Panes,
    around: AroundView,
) -> TuiView {
    modal_drawn(
        main_drawn(side_drawn(v, panes, area.width), row, panes),
        area,
        around.info,
    )
}

/// The dashboard: sidebar, main pane and footer, then the toasts, then the modal
/// on top.
pub open spec fn dashboard_scene(
    v: TuiView,
    row: TabRow,
    area: Rect,
    panes: Panes,
    around: AroundView,
    ages: Seq<u64>,
) -> Seq<DrawView> {
    let done = main_drawn(side_drawn(v, panes, area.width), row, panes);
    panes_scene(v, row, area.width, panes, around) + toasts_scene(
        panes.main,
        done.session.palette,
        done.notices.toasts,
    ) + modal_scene(done, area, around.info, around.places, ages)
}

fn draw_side(
    panes: Panes,
    width: u16,
    state: &mut TuiState,
    host: Option<&str>,
) -> (r: Vec<Draw>)
    requires
        panes.sidebar matches Some(side) ==> side.roomy(),
        old(state).wf(),
    ensures
        final(state).wf(),
        final(state)@ == side_drawn(old(state)@, panes, width),
        final(state)@.notices == old(state)@.notices,
        views(r@) == side_scene(old(state)@, panes, opt_str(host)),
{
    match panes.sidebar {
        Some(side) => {
            let r = render_sidebar(side, state, host);
            state.set_sidebar_divider(panes.main.x, panes.body.y, panes.body.height, width);
            r
        },
        None => {
            let r: Vec<Draw> = Vec::new();
            assert(views(r@) =~= Seq::empty());
            r
        },
    }
}

proof fn main_keeps_notices(v: TuiView, row: TabRow, panes: Panes)
    ensures
        main_drawn(v, row, panes).notices == v.notices,
        main_drawn(v, row, panes).session == v.session,
        main_drawn(v, row, panes).modals == v.modals,
{
}

/// The panes of the dashboard: sidebar, main pane and footer.
pub open spec fn panes_scene(
    v: TuiView,
    row: TabRow,
    width: u16,
    panes: Panes,
    around: AroundView,
) -> Seq<DrawView> {
    let sided = side_drawn(v, panes, width);
    let bar = footer_areas(panes.footer);
    side_scene(v, panes, around.host) + main_scene(
        sided,
        row,
        panes,
        around.version,
        around.host,
    ) + footer_scene(main_drawn(sided, row, panes), bar.0, bar.1, around.skill)
}

fn draw_panes(
    panes: Panes,
    width: u16,
    state: &mut TuiState,
    row: &mut TabRow,
    around: &Surroundings<'_>,
) -> (r: Vec<Draw>)
    requires
        panes.sidebar matches Some(side) ==> side.roomy(),
        panes.tabs.roomy(),
        panes.logs.fits(),
        panes.footer.fits(),
        old(state).wf(),
    ensures
        final(state).wf(),
        final(state)@ == main_drawn(
            side_drawn(old(state)@, panes, width),
            *old(row),
            panes,
        ),
        final(state)@.notices == old(state)@.notices,
        *final(row) == row_drawn(
            side_drawn(old(state)@, panes, width),
            *old(row),
            panes.tabs,
        ),
        views(r@) == panes_scene(old(state)@, *old(row), width, panes, around@),
{
    let mut r = draw_side(panes, width, state, around.host);
    proof {
        main_keeps_notices(state@, *row, panes);
    }
    let main = render_main(panes, state, row, around.version, around.host);
    draw_also(&mut r, main);
    let footer = render_footer(panes.footer, state, around.skill);
    draw_also(&mut r, footer);
    r
}

/// Draws the dashboard into its panes.
pub fn render_dashboard(
    area: Rect,
    panes: Panes,
    state: &mut TuiState,
    row: &mut TabRow,
    around: &Surroundings<'_>,
    ages: &Vec<u64>,
) -> (r: Vec<Draw>)
    requires
        area.fits(),
        panes.sidebar matches Some(side) ==> side.roomy(),
        panes.main.fits(),
        panes.tabs.roomy(),
        panes.logs.fits(),
        panes.footer.fits(),
        old(state).wf(),
        ages@.len() == old(state)@.notices.history.len(),
        around.info matches Some(i) ==> info_fits(area, i@),
    ensures
        final(state).wf(),
        final(state)@ == dashboard_drawn(old(state)@, *old(row), area, panes, around@),
        *final(row) == row_drawn(
            side_drawn(old(state)@, panes, area.width),
            *old(row),
            panes.tabs,
        ),
        views(r@) == dashboard_scene(old(state)@, *old(row), area, panes, around@, ages@),
{
    let mut r = draw_panes(panes, area.width, state, row, around);
    let toasts = render_toasts(panes.main, state.palette(), state.toasts());
    draw_also(&mut r, toasts);
    let top = render_modal(area, state, around.info, around.places, ages);
    draw_also(&mut r, top);
    r
}

/// How a frame divides the screen.
#[derive(Debug, Clone, Copy, PartialEq, Eq, Structural)]
pub enum Division {
    /// The header, the text and the footer of copy mode or zoom.
    Full { header: Rect, text: Rect, footer: Rect },
    /// The stopped screen has it whole.
    Whole,
    Dashboard(Panes),
}

/// The division is one that the state asks for.
pub open spec fn divided(v: TuiView, area: Rect, d: Division) -> bool {
    let full = v.layout.copy_mode || v.layout.zoom;
    match d {
        Division::Full { header, text, footer } => full && stacked(
            area,
            1,
            1,
            (header, text, footer),
        ),
        Division::Whole => !full && v.session.stopped,
        Division::Dashboard(panes) => !full && !v.session.stopped && panes_divide(v, area, panes),
    }
}

fn divide_panes(area: Rect, state: &TuiState) -> (r: Panes)
    requires
        area.roomy(),
    ensures
        panes_divide(state@, area, r),
{
    let (body, footer) = split_tail(area, Axis::Down, 0, 1);
    let (sidebar, main) = if state.sidebar_collapsed() {
        (None, body)
    } else {
        let (side, rest) = split_head(body, Axis::Across, state.sidebar_width());
        (Some(side), rest)
    };
    let (tabs, logs, meta) = split_rows(inner(main), 2, 1);
    Panes { sidebar, main, tabs, logs, meta, footer, body }
}

/// Divides the screen for a frame.
pub fn divide(area: Rect, state: &TuiState) -> (r: Division)
    requires
        area.roomy(),
    ensures
        divided(state@, area, r),
{
    if state.copy_mode() || state.zoom() {
        let (header, text, footer) = split_rows(area, 1, 1);
        Division::Full { header, text, footer }
    } else if state.stopped() {
        Division::Whole
    } else {
        Division::Dashboard(divide_panes(area, state))
    }
}

/// The hit areas are rebuilt with each frame.
pub open spec fn cleared(v: TuiView) -> TuiView {
    TuiView {
        hits: HitsView {
            click_regions: Seq::empty(),
            scrollbar_hit: None,
            sidebar_divider: None,
            ..v.hits
        },
        ..v
    }
}

/// A whole frame: copy mode, zoom or the stopped screen where one of them is
/// on, else the dashboard.
pub open spec fn frame_scene(
    v: TuiView,
    row: TabRow,
    area: Rect,
    d: Division,
    around: AroundView,
    ages: Seq<u64>,
) -> Seq<DrawView> {
    let clean = cleared(v);
    match d {
        Division::Full { header, text, footer } => if v.layout.copy_mode {
            copy_scene(clean, (header, text, footer))
        } else {
            zoom_scene(clean, (header, text, footer))
        },
        Division::Whole => stopped_scene(
            area,
            v.session.palette,
            v.session.stopped_repo,
            v.notices.toasts,
        ),
        Division::Dashboard(panes) => dashboard_scene(clean, row, area, panes, around, ages),
    }
}

/// The state after a frame was drawn.
pub open spec fn frame_drawn(
    v: TuiView,
    row: TabRow,
    area: Rect,
    d: Division,
    around: AroundView,
) -> TuiView {
    let clean = cleared(v);
    match d {
        Division::Full { header, text, footer } => if v.layout.copy_mode {
            copy_drawn(clean, (header, text, footer))
        } else {
            viewport_drawn(clean, text)
        },
        Division::Whole => clean,
        Division::Dashboard(panes) => dashboard_drawn(clean, row, area, panes, around),
    }
}

/// The tab row's state after a frame was drawn.
pub open spec fn frame_row(v: TuiView, row: TabRow, area: Rect, d: Division) -> TabRow {
    match d {
        Division::Dashboard(panes) => row_drawn(
            side_drawn(cleared(v), panes, area.width),
            row,
            panes.tabs,
        ),
        _ => row,
    }
}

/// Draws a frame into the areas of a division of the screen. `ages` holds the
/// ages of the notification history in seconds, newest first.
pub fn render_at(
    area: Rect,
    division: Division,
    state: &mut TuiState,
    row: &mut TabRow,
    around: &Surroundings<'_>,
    ages: &Vec<u64>,
) -> (r: Vec<Draw>)
    requires
        area.roomy(),
        divided(old(state)@, area, division),
        old(state).wf(),
        ages@.len() == old(state)@.notices.history.len(),
        around.info matches Some(i) ==> info_fits(area, i@),
    ensures
        final(state).wf(),
        final(state)@ == frame_drawn(old(state)@, *old(row), area, division, around@),
        *final(row) == frame_row(old(state)@, *old(row), area, division),
        views(r@) == frame_scene(old(state)@, *old(row), area, division, around@, ages@),
{
    state.begin_frame_hits();
    match division {
        Division::Full { header, text, footer } => if state.copy_mode() {
            render_copy_mode(header, text, footer, state)
        } else {
            render_zoom(header, text, footer, state)
        },
        Division::Whole => render_stopped(area, state),
        Division::Dashboard(panes) => render_dashboard(area, panes, state, row, around, ages),
    }
}

/// A frame that the state may give: drawn into a division that it asks for.
pub open spec fn frame_of(
    v: TuiView,
    row: TabRow,
    area: Rect,
    around: AroundView,
    d: Division,
    ages: Seq<u64>,
    drawn: TuiView,
    rowed: TabRow,
    scene: Seq<DrawView>,
) -> bool {
    &&& divided(v, area, d)
    &&& ages.len() == v.notices.history.len()
    &&& drawn == frame_drawn(v, row, area, d, around)
    &&& rowed == frame_row(v, row, area, d)
    &&& scene == frame_scene(v, row, area, d, around, ages)
}

/// Draws a frame: everything that `state` shows in `area`.
pub fn render(
    area: Rect,
    state: &mut TuiState,
    row: &mut TabRow,
    around: &Surroundings<'_>,
) -> (r: Vec<Draw>)
    requires
        area.roomy(),
        old(state).wf(),
        around.info matches Some(i) ==> info_fits(area, i@),
    ensures
        final(state).wf(),
        exists|d: Division, ages: Seq<u64>| #[trigger]
            frame_of(
                old(state)@,
                *old(row),
                area,
                around@,
                d,
                ages,
                final(state)@,
                *final(row),
                views(r@),
            ),
{
    let ghost v = state@;
    let ghost was = *row;
    let ages = state.notif_ages();
    let division = divide(area, state);
    let r = render_at(area, division, state, row, around, &ages);
    assert(frame_of(v, was, area, around@, division, ages@, state@, *row, views(r@)));
    r
}

} // verus!
