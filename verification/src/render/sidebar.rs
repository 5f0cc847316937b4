//! The sidebar: stacks, the shared services, and the dependency checks.
use vstd::prelude::*;

use crate::lists::{count, views};
use crate::protocol::{ServiceSnapshot, ServiceView, StepSnapshot, StepView};
use crate::state::nav::kept_visible;
use crate::state::tabs::{health_of, is_up};
use crate::state::{
    ClickRegion, ClickTarget, Layout, StackSummary, StacksView, TuiState, TuiView,
};
use crate::text::{decimal, join, joined, number, opt_str, repeat, repeated, texts};
use crate::theme::{truncate, truncated, Color, Palette};

use super::glyphs::{
    health_dot, health_mark, host_label, short_host, step_color, step_glyph, step_mark,
    step_text_style,
};
use super::layout::{at_most, less, rest_and_tail, split_tail, Axis};
use super::paint::{
    bold, columns, draw_line, filled, four, gap, gap_text, inked, joined2, joined3, line, line_at,
    one, plain, sp, span, span_of, three, Draw, DrawView, LineView, Rect, Span, SpanView,
};

verus! {

impl Rect {
    /// Its edges stay screen coordinates with a few cells to spare, for rows
    /// that hang over.
    pub open spec fn roomy(self) -> bool {
        self.x + self.width <= u16::MAX - 4 && self.y + self.height <= u16::MAX - 4
    }

    /// Its first row.
    pub open spec fn top_row(self) -> Rect {
        Rect { height: 1, ..self }
    }
}

/// The header of a sidebar section.
pub open spec fn section_line(p: Palette, label: Seq<char>) -> LineView {
    seq![sp(" "@ + label, bold(p.overlay0))]
}

/// The stacks' header when the stacks live on another host: its name at the
/// right.
pub open spec fn remote_line(p: Palette, host: Seq<char>, width: int) -> LineView {
    let mark = "⇅ "@ + host_label(host) + " "@;
    seq![
        sp(" stacks"@, bold(p.overlay0)),
        sp(gap(width, 7 + mark.len() as int), plain()),
        sp(mark, bold(p.accent)),
    ]
}

pub open spec fn stacks_header(p: Palette, host: Option<Seq<char>>, width: int) -> LineView {
    match host {
        Some(h) => remote_line(p, h, width),
        None => section_line(p, "stacks"@),
    }
}

fn remote_header(p: &Palette, host: &str, width: u16) -> (r: super::paint::Line)
    ensures
        r@ == remote_line(*p, host@, width as int),
{
    let mark = joined3("⇅ ", short_host(host).as_str(), " ");
    let used: usize = columns(mark.as_str()).saturating_add(7);
    three(
        span(" stacks", bold(p.overlay0)),
        span_of(gap_text(width as usize, used), plain()),
        span_of(mark, bold(p.accent)),
    )
}

/// What a stack's summary says, and its colour.
pub open spec fn summary_span(p: Palette, s: StackSummary, placeholder: bool) -> SpanView {
    match s {
        StackSummary::Counted { up, total } => sp(
            decimal(up as nat) + "/"@ + decimal(total as nat) + " up"@,
            inked(
                if up == total {
                    p.green
                } else if up > 0 {
                    p.yellow
                } else {
                    p.overlay0
                },
            ),
        ),
        StackSummary::SharedOnly => sp("shared only"@, inked(p.overlay0)),
        StackSummary::NoDaemon => sp(
            if placeholder {
                "no devme.toml"@
            } else {
                "no daemon"@
            },
            inked(p.surface1),
        ),
    }
}

/// How far a stack's branch is ahead of and behind its upstream.
pub open spec fn distance_spans(p: Palette, d: Option<(usize, usize)>) -> Seq<SpanView> {
    match d {
        None => Seq::empty(),
        Some((ahead, behind)) => (if ahead > 0 {
            seq![sp(" ↑"@ + decimal(ahead as nat), inked(p.green))]
        } else {
            Seq::empty()
        }) + (if behind > 0 {
            seq![sp(" ↓"@ + decimal(behind as nat), inked(p.peach))]
        } else {
            Seq::empty()
        }),
    }
}

/// The second line of the stack at `i`.
pub open spec fn secondary_line(p: Palette, v: StacksView, i: int) -> LineView {
    seq![sp("   "@, plain()), summary_span(p, v.summary(i), v.instances[i].vacant())]
        + distance_spans(p, v.instances[i].git_ahead_behind)
}

/// The dim second line of the stack at `i`: "2/3 up" and how far its branch is
/// ahead and behind.
pub fn stack_secondary(p: &Palette, state: &TuiState, i: usize) -> (r: super::paint::Line)
    requires
        i < state@.stacks.instances.len(),
    ensures
        r@ == secondary_line(*p, state@.stacks, i as int),
{
    let ghost v = state@.stacks;
    let mut spans: Vec<Span> = Vec::new();
    spans.push(span("   ", plain()));
    match state.instance_service_summary(i) {
        StackSummary::Counted { up, total } => {
            let color = if up == total {
                p.green
            } else if up > 0 {
                p.yellow
            } else {
                p.overlay0
            };
            let mut text = joined2(number(up as u64).as_str(), "/");
            text.append(number(total as u64).as_str());
            text.append(" up");
            spans.push(span_of(text, inked(color)));
        },
        StackSummary::SharedOnly => spans.push(span("shared only", inked(p.overlay0))),
        StackSummary::NoDaemon => {
            let label = if state.instance_is_placeholder(i) {
                "no devme.toml"
            } else {
                "no daemon"
            };
            spans.push(span(label, inked(p.surface1)));
        },
    }
    let ghost head = views(spans@);
    assert(head =~= seq![
        sp("   "@, plain()),
        summary_span(*p, v.summary(i as int), v.instances[i as int].vacant()),
    ]);
    match state.instance_ahead_behind(i) {
        Some((ahead, behind)) => {
            if ahead > 0 {
                spans.push(span_of(joined2(" ↑", number(ahead as u64).as_str()), inked(p.green)));
            }
            if behind > 0 {
                spans.push(span_of(joined2(" ↓", number(behind as u64).as_str()), inked(p.peach)));
            }
        },
        None => {},
    }
    assert(views(spans@) =~= head + distance_spans(*p, v.instances[i as int].git_ahead_behind));
    line(spans)
}

/// A two-line sidebar row: a status dot and a name, then the secondary line.
/// The whole row is filled when it is selected.
pub open spec fn row_draws(
    p: Palette,
    area: Rect,
    y: int,
    dot: (Seq<char>, Color),
    name: Seq<char>,
    secondary: LineView,
    selected: bool,
) -> Seq<DrawView> {
    let fill = if selected {
        filled(p.surface0)
    } else {
        plain()
    };
    seq![
        line_at(
            area.row(y),
            seq![
                sp(" "@, plain()),
                sp(dot.0, inked(dot.1)),
                sp(" "@, plain()),
                sp(
                    truncated(name, less(area.width as int, 3) as nat),
                    if selected {
                        bold(p.text)
                    } else {
                        inked(p.subtext0)
                    },
                ),
            ],
            fill,
        ),
        line_at(area.row(y + 1), secondary, fill),
    ]
}

fn add_row(
    r: &mut Vec<Draw>,
    p: &Palette,
    area: Rect,
    y: u16,
    dot: (&str, Color),
    name: &str,
    secondary: super::paint::Line,
    selected: bool,
)
    requires
        y < u16::MAX,
    ensures
        views(final(r)@) == views(old(r)@) + row_draws(
            *p,
            area,
            y as int,
            (dot.0@, dot.1),
            name@,
            secondary@,
            selected,
        ),
{
    let ghost start = views(r@);
    let ghost second = secondary@;
    let fill = if selected {
        filled(p.surface0)
    } else {
        plain()
    };
    let style = if selected {
        bold(p.text)
    } else {
        inked(p.subtext0)
    };
    let room: usize = (area.width as usize).saturating_sub(3);
    let text = four(
        span(" ", plain()),
        span(dot.0, inked(dot.1)),
        span(" ", plain()),
        span_of(truncate(name, room), style),
    );
    r.push(draw_line(area.row_at(y), text, fill));
    r.push(draw_line(area.row_at(y + 1), secondary, fill));
    assert(views(r@) =~= start + row_draws(
        *p,
        area,
        y as int,
        (dot.0@, dot.1),
        name@,
        second,
        selected,
    ));
}

/// The rows that the shared section takes below the stacks.
pub open spec fn shared_rows(v: StacksView) -> int {
    if v.shared.services.len() > 0 {
        4
    } else {
        0
    }
}

/// The rows that the stacks may take.
pub open spec fn stack_rows(v: StacksView, area: Rect) -> int {
    less(less(area.height as int, 1), shared_rows(v))
}

/// How many stacks there is room for: at least one is kept in view.
pub open spec fn stacks_in_view(v: StacksView, area: Rect) -> int {
    if stack_rows(v, area) < 2 {
        1
    } else {
        stack_rows(v, area) / 2
    }
}

/// The first stack that is shown.
pub open spec fn stacks_scroll(v: TuiView, area: Rect) -> int {
    kept_visible(
        v.layout.sidebar_scroll as int,
        match v.stacks.selected_instance {
            Some(i) => i as int,
            None => 0,
        },
        v.stacks.instances.len() as int,
        stacks_in_view(v.stacks, area),
    )
}

/// How many stacks are shown.
pub open spec fn stacks_shown(v: TuiView, area: Rect) -> int {
    at_most(
        v.stacks.instances.len() - stacks_scroll(v, area),
        stack_rows(v.stacks, area) / 2,
    )
}

/// The row of the `k`-th stack that is shown.
pub open spec fn stack_y(area: Rect, k: int) -> int {
    area.y + 1 + 2 * k
}

/// The rows of the `k`-th stack that is shown.
pub open spec fn stack_draws(p: Palette, v: TuiView, area: Rect, k: int) -> Seq<DrawView> {
    let i = stacks_scroll(v, area) + k;
    row_draws(
        p,
        area,
        stack_y(area, k),
        health_mark(p, v.stacks.health(i)),
        v.stacks.instances[i].info.label,
        secondary_line(p, v.stacks, i),
        !v.stacks.shared_selected && v.stacks.selected_instance == Some(i as usize),
    )
}

/// The rows of the first `n` stacks that are shown.
pub open spec fn stacks_draws(p: Palette, v: TuiView, area: Rect, n: nat) -> Seq<DrawView>
    decreases n,
{
    if n == 0 {
        Seq::empty()
    } else {
        stacks_draws(p, v, area, (n - 1) as nat) + stack_draws(p, v, area, n - 1)
    }
}

/// Clicking a stack's two rows selects it.
pub open spec fn stack_region(v: TuiView, area: Rect, k: int) -> ClickRegion {
    ClickRegion {
        x: area.x,
        y: stack_y(area, k) as u16,
        w: area.width,
        h: 2,
        target: ClickTarget::Stack((stacks_scroll(v, area) + k) as usize),
    }
}

/// Some stacks are out of view below, and there is a row to say so.
pub open spec fn says_more(v: TuiView, area: Rect) -> bool {
    stacks_scroll(v, area) + stacks_shown(v, area) < v.stacks.instances.len() && stack_y(
        area,
        stacks_shown(v, area),
    ) < area.y + 1 + stack_rows(v.stacks, area)
}

/// The row that says how many more stacks there are.
pub open spec fn more_draw(p: Palette, v: TuiView, area: Rect) -> DrawView {
    let more = v.stacks.instances.len() - stacks_scroll(v, area) - stacks_shown(v, area);
    line_at(
        area.row(stack_y(area, stacks_shown(v, area))),
        seq![sp("  ▾ "@ + decimal(more as nat) + " more"@, inked(p.overlay0))],
        plain(),
    )
}

/// Where the shared section starts: a row below the stacks, but no lower than
/// the rows kept for it.
pub open spec fn shared_y(v: TuiView, area: Rect) -> int {
    at_most(
        stack_y(area, stacks_shown(v, area)) + 1 + if says_more(v, area) {
            1int
        } else {
            0
        },
        area.y + 1 + stack_rows(v.stacks, area),
    )
}

/// The names of services.
pub open spec fn names_of(services: Seq<ServiceView>) -> Seq<Seq<char>> {
    services.map_values(|s: ServiceView| s.name)
}

/// The shared section: a dotted rule, a header and the shared row.
pub open spec fn shared_draws(p: Palette, v: TuiView, area: Rect) -> Seq<DrawView> {
    let y = shared_y(v, area);
    let services = v.stacks.shared.services;
    let up = count(services, is_up());
    seq![
        line_at(
            area.row(y),
            seq![sp(repeated("┈"@, area.width as nat), inked(p.surface1))],
            plain(),
        ),
        line_at(area.row(y + 1), section_line(p, "shared"@), plain()),
    ] + row_draws(
        p,
        area,
        y + 2,
        health_mark(p, health_of(services)),
        joined(names_of(services), ", "@),
        seq![
            sp(
                "   "@ + decimal(up) + "/"@ + decimal(services.len()) + " up"@,
                inked(
                    if up == services.len() && services.len() > 0 {
                        p.green
                    } else {
                        p.overlay0
                    },
                ),
            ),
        ],
        v.stacks.shared_selected,
    )
}

/// The stacks section.
pub open spec fn stacks_scene(
    p: Palette,
    v: TuiView,
    area: Rect,
    host: Option<Seq<char>>,
) -> Seq<DrawView> {
    if area.height == 0 {
        Seq::empty()
    } else {
        seq![line_at(area.top_row(), stacks_header(p, host, area.width as int), plain())]
            + stacks_draws(p, v, area, stacks_shown(v, area) as nat) + rest_draws(p, v, area)
    }
}

/// Clicking the shared row selects it.
pub open spec fn shared_regions(v: TuiView, area: Rect) -> Seq<ClickRegion> {
    if v.stacks.shared.services.len() > 0 {
        seq![
            ClickRegion {
                x: area.x,
                y: (shared_y(v, area) + 2) as u16,
                w: area.width,
                h: 2,
                target: ClickTarget::Shared,
            },
        ]
    } else {
        Seq::empty()
    }
}

/// What follows the stacks: how many more there are, and the shared section.
pub open spec fn rest_draws(p: Palette, v: TuiView, area: Rect) -> Seq<DrawView> {
    (if says_more(v, area) {
        seq![more_draw(p, v, area)]
    } else {
        Seq::empty()
    }) + (if v.stacks.shared.services.len() > 0 {
        shared_draws(p, v, area)
    } else {
        Seq::empty()
    })
}

/// The click regions of the stacks section.
pub open spec fn stacks_regions(v: TuiView, area: Rect) -> Seq<ClickRegion> {
    if area.height == 0 {
        Seq::empty()
    } else {
        Seq::new(
            stacks_shown(v, area) as nat,
            |k: int| stack_region(v, area, k),
        ) + shared_regions(v, area)
    }
}

/// The state after the stacks section was drawn: scrolled so that the selected
/// stack is in view, with its click regions.
pub open spec fn stacks_drawn(v: TuiView, area: Rect) -> TuiView {
    if area.height == 0 {
        v
    } else {
        stacks_scrolled(v, area).with_regions(stacks_regions(v, area))
    }
}

fn up_count(services: &Vec<ServiceSnapshot>) -> (r: usize)
    ensures
        r == count(views(services@), is_up()),
{
    let ghost all = views(services@);
    let mut n: usize = 0;
    let mut i: usize = 0;
    while i < services.len()
        invariant
            n <= i <= services.len(),
            all == views(services@),
            n == count(all.take(i as int), is_up()),
        decreases services.len() - i,
    {
        assert(all.take(i + 1).drop_last() =~= all.take(i as int));
        assert(all.take(i + 1).last() == services@[i as int]@);
        if services[i].state.is_up() {
            n = n + 1;
        }
        i = i + 1;
    }
    assert(all.take(i as int) =~= all);
    n
}

fn names(services: &Vec<ServiceSnapshot>) -> (r: Vec<String>)
    ensures
        texts(r@) == names_of(views(services@)),
{
    let ghost all = names_of(views(services@));
    let mut r: Vec<String> = Vec::new();
    let mut i: usize = 0;
    while i < services.len()
        invariant
            i <= services.len(),
            all == names_of(views(services@)),
            texts(r@) == all.take(i as int),
        decreases services.len() - i,
    {
        let ghost before = texts(r@);
        assert(all[i as int] == services@[i as int]@.name);
        r.push(services[i].name.clone());
        assert(texts(r@) =~= before.push(all[i as int]));
        assert(all.take(i + 1) =~= before.push(all[i as int]));
        i = i + 1;
    }
    assert(all.take(i as int) =~= all);
    r
}

fn add_shared(r: &mut Vec<Draw>, p: &Palette, area: Rect, state: &TuiState, y: u16, v: Ghost<TuiView>)
    requires
        y <= u16::MAX - 4,
        y == shared_y(v@, area),
        state@.stacks == v@.stacks,
    ensures
        views(final(r)@) == views(old(r)@) + shared_draws(*p, v@, area),
{
    let ghost start = views(r@);
    let services = state.shared_services();
    r.push(
        draw_line(
            area.row_at(y),
            one(repeat("┈", area.width as usize).as_str(), inked(p.surface1)),
            plain(),
        ),
    );
    r.push(
        draw_line(
            area.row_at(y + 1),
            one(joined2(" ", "shared").as_str(), bold(p.overlay0)),
            plain(),
        ),
    );
    let ghost head = views(r@);
    let up: usize = up_count(services);
    let len: usize = services.len();
    let color = if up == len && len > 0 {
        p.green
    } else {
        p.overlay0
    };
    let mut text = joined2("   ", number(up as u64).as_str());
    text.append("/");
    text.append(number(len as u64).as_str());
    text.append(" up");
    let label = join(&names(services), ", ");
    let dot = health_dot(p, state.shared_health());
    add_row(
        r,
        p,
        area,
        y + 2,
        dot,
        label.as_str(),
        one(text.as_str(), inked(color)),
        state.shared_selected(),
    );
    assert(head =~= start + shared_draws(*p, v@, area).take(2));
    assert(views(r@) =~= start + shared_draws(*p, v@, area));
}

proof fn scroll_in_list(v: TuiView, area: Rect)
    ensures
        0 <= stacks_scroll(v, area) <= v.stacks.instances.len(),
{
}

fn add_stacks(
    r: &mut Vec<Draw>,
    p: &Palette,
    area: Rect,
    state: &mut TuiState,
    shown: usize,
    v: Ghost<TuiView>,
)
    requires
        area.roomy(),
        old(state).wf(),
        old(state)@.stacks == v@.stacks,
        old(state)@.layout.sidebar_scroll == stacks_scroll(v@, area),
        shown == stacks_shown(v@, area),
        0 <= stacks_scroll(v@, area) <= v@.stacks.instances.len(),
    ensures
        final(state).wf(),
        final(state)@ == old(state)@.with_regions(
            Seq::new(shown as nat, |k: int| stack_region(v@, area, k)),
        ),
        views(final(r)@) == views(old(r)@) + stacks_draws(*p, v@, area, shown as nat),
{
    let ghost v = v@;
    let ghost start = state@;
    let ghost head = views(r@);
    let scroll: usize = state.sidebar_scroll();
    let total: usize = state.instances().len();
    let ghost regions = Seq::new(shown as nat, |k: int| stack_region(v, area, k));
    assert(views(r@) =~= head + stacks_draws(*p, v, area, 0));
    assert(state@.hits.click_regions =~= start.hits.click_regions + regions.take(0));
    let mut k: usize = 0;
    while k < shown
        invariant
            k <= shown == stacks_shown(v, area),
            area.roomy(),
            scroll == stacks_scroll(v, area) <= v.stacks.instances.len() == total,
            state.wf(),
            state@ == start.with_regions(regions.take(k as int)),
            start.stacks == v.stacks,
            regions == Seq::new(shown as nat, |k: int| stack_region(v, area, k)),
            views(r@) == head + stacks_draws(*p, v, area, k as nat),
        decreases shown - k,
    {
        let ghost before = views(r@);
        assert(2 * shown < area.height);
        let i: usize = scroll + k;
        let y: u16 = area.y + 1 + 2 * k as u16;
        let labels = state.instances();
        let selected = !state.shared_selected() && match state.selected_instance_index() {
            Some(s) => s == i,
            None => false,
        };
        let dot = health_dot(p, state.instance_health(i));
        let secondary = stack_secondary(p, state, i);
        add_row(r, p, area, y, dot, labels[i], secondary, selected);
        assert(views(r@) =~= before + stack_draws(*p, v, area, k as int));
        let ghost had = state@.hits.click_regions;
        state.push_click_region(area.x, y, area.width, 2, ClickTarget::Stack(i));
        assert(state@.hits.click_regions =~= had.push(regions[k as int]));
        k = k + 1;
        assert(state@.hits.click_regions =~= start.hits.click_regions + regions.take(k as int));
        assert(views(r@) =~= head + stacks_draws(*p, v, area, k as nat));
    }
    assert(regions.take(k as int) =~= regions);
}

fn add_rest(
    r: &mut Vec<Draw>,
    p: &Palette,
    area: Rect,
    state: &mut TuiState,
    rows: u16,
    scroll: usize,
    shown: usize,
    v: Ghost<TuiView>,
)
    requires
        area.roomy(),
        area.height > 0,
        old(state).wf(),
        old(state)@.stacks == v@.stacks,
        rows == stack_rows(v@.stacks, area),
        scroll == stacks_scroll(v@, area) <= v@.stacks.instances.len(),
        shown == stacks_shown(v@, area),
    ensures
        final(state).wf(),
        final(state)@ == old(state)@.with_regions(shared_regions(v@, area)),
        views(final(r)@) == views(old(r)@) + rest_draws(*p, v@, area),
{
    let ghost v = v@;
    let ghost listed = views(r@);
    let total: usize = state.instances().len();
    let bottom: u16 = area.y + 1 + rows;
    let mut y: u16 = area.y + 1 + 2 * shown as u16;
    if scroll + shown < total && y < bottom {
        let mut text = joined2("  ▾ ", number((total - scroll - shown) as u64).as_str());
        text.append(" more");
        r.push(draw_line(area.row_at(y), one(text.as_str(), inked(p.overlay0)), plain()));
        assert(views(r@) =~= listed + seq![more_draw(*p, v, area)]);
        y = y + 1;
    } else {
        assert(views(r@) =~= listed + Seq::<DrawView>::empty());
    }
    let ghost more = views(r@);
    let ghost had = state@.hits.click_regions;
    if state.shared_services().len() > 0 {
        assert(v.stacks.shared.services.len() > 0);
        let at: u16 = if y + 1 < bottom {
            y + 1
        } else {
            bottom
        };
        assert(at == shared_y(v, area));
        add_shared(r, p, area, state, at, Ghost(v));
        state.push_click_region(area.x, at + 2, area.width, 2, ClickTarget::Shared);
        assert(state@.hits.click_regions =~= had + shared_regions(v, area));
    } else {
        assert(v.stacks.shared.services.len() == 0);
        assert(state@.hits.click_regions =~= had + shared_regions(v, area));
    }
    assert(views(r@) =~= listed + rest_draws(*p, v, area));
}

/// The state after the stacks were scrolled so that the selected one is in view.
pub open spec fn stacks_scrolled(v: TuiView, area: Rect) -> TuiView {
    TuiView {
        layout: Layout { sidebar_scroll: stacks_scroll(v, area) as usize, ..v.layout },
        ..v
    }
}

/// Scrolls the stacks. Returns the rows they may take, the first that is shown
/// and how many are.
fn scroll_stacks(area: Rect, state: &mut TuiState) -> (r: (u16, usize, usize))
    requires
        area.height > 0,
        old(state).wf(),
    ensures
        final(state).wf(),
        final(state)@ == stacks_scrolled(old(state)@, area),
        r.0 == stack_rows(old(state)@.stacks, area),
        r.1 == stacks_scroll(old(state)@, area) <= old(state)@.stacks.instances.len(),
        r.2 == stacks_shown(old(state)@, area),
{
    let ghost v = state@;
    let has_shared = state.shared_services().len() > 0;
    assert(has_shared == (v.stacks.shared.services.len() > 0));
    let reserve: u16 = if has_shared {
        4
    } else {
        0
    };
    let rows: u16 = (area.height - 1).saturating_sub(reserve);
    let in_view: usize = if rows < 2 {
        1
    } else {
        rows as usize / 2
    };
    state.ensure_stack_visible(in_view);
    let scroll: usize = state.sidebar_scroll();
    proof {
        scroll_in_list(v, area);
    }
    let total: usize = state.instances().len();
    let fitting: usize = rows as usize / 2;
    let shown: usize = if total - scroll < fitting {
        total - scroll
    } else {
        fitting
    };
    (rows, scroll, shown)
}

/// Draws the stacks section. `host` names the machine that the stacks live on,
/// where that is another one.
pub fn render_stacks_pane(area: Rect, state: &mut TuiState, host: Option<&str>) -> (r: Vec<Draw>)
    requires
        area.roomy(),
        old(state).wf(),
    ensures
        final(state).wf(),
        final(state)@ == stacks_drawn(old(state)@, area),
        views(r@) == stacks_scene(
            old(state)@.session.palette,
            old(state)@,
            area,
            opt_str(host),
        ),
{
    let ghost v = state@;
    let p = *state.palette();
    let mut r: Vec<Draw> = Vec::new();
    if area.height == 0 {
        assert(views(r@) =~= Seq::empty());
        return r;
    }
    let top = Rect { x: area.x, y: area.y, width: area.width, height: 1 };
    let header = match host {
        Some(h) => remote_header(&p, h, area.width),
        None => one(joined2(" ", "stacks").as_str(), bold(p.overlay0)),
    };
    r.push(draw_line(top, header, plain()));
    let ghost head = views(r@);
    assert(head =~= seq![
        line_at(area.top_row(), stacks_header(p, opt_str(host), area.width as int), plain()),
    ]);
    let (rows, scroll, shown) = scroll_stacks(area, state);
    add_stacks(&mut r, &p, area, state, shown, Ghost(v));
    add_rest(&mut r, &p, area, state, rows, scroll, shown, Ghost(v));
    proof {
        let scene = stacks_scene(p, v, area, opt_str(host));
        assert(views(r@) =~= scene);
        assert(stacks_regions(v, area) =~= Seq::new(
            shown as nat,
            |k: int| stack_region(v, area, k),
        ) + shared_regions(v, area));
        assert(state@.hits.click_regions =~= v.hits.click_regions + stacks_regions(v, area));
    }
    r
}

/// One dependency check.
pub open spec fn step_line(p: Palette, s: StepView, width: int) -> LineView {
    seq![
        sp(" "@, plain()),
        sp(step_mark(s.state), inked(step_color(&p, s.state))),
        sp(" "@, plain()),
        sp(truncated(s.name, less(width, 3) as nat), step_text_style(&p, s.state)),
    ]
}

/// The dependency checks: a rule, a header, and as many checks as there is room
/// for.
pub open spec fn tools_scene(p: Palette, area: Rect, steps: Seq<StepView>) -> Seq<DrawView> {
    if area.height < 2 {
        Seq::empty()
    } else {
        seq![
            line_at(
                area.top_row(),
                seq![sp(repeated("─"@, area.width as nat), inked(p.surface1))],
                plain(),
            ),
            line_at(area.row(area.y + 1), section_line(p, "tools"@), plain()),
        ] + Seq::new(
            at_most(steps.len() as int, area.height - 2) as nat,
            |i: int|
                line_at(
                    area.row(area.y + 2 + i),
                    step_line(p, steps[i], area.width as int),
                    plain(),
                ),
        )
    }
}

fn step_text(p: &Palette, s: &StepSnapshot, width: u16) -> (r: super::paint::Line)
    ensures
        r@ == step_line(*p, s@, width as int),
{
    let room: usize = (width as usize).saturating_sub(3);
    four(
        span(" ", plain()),
        span(step_glyph(s.state), inked(step_color(p, s.state))),
        span(" ", plain()),
        span_of(truncate(s.name.as_str(), room), step_text_style(p, s.state)),
    )
}

/// Draws the dependency checks.
pub fn render_tools_pane(p: &Palette, area: Rect, steps: &Vec<StepSnapshot>) -> (r: Vec<Draw>)
    requires
        area.fits(),
    ensures
        views(r@) == tools_scene(*p, area, views(steps@)),
{
    let ghost all = views(steps@);
    let ghost scene = tools_scene(*p, area, all);
    let mut r: Vec<Draw> = Vec::new();
    if area.height < 2 {
        assert(views(r@) =~= Seq::empty());
        return r;
    }
    let top = Rect { x: area.x, y: area.y, width: area.width, height: 1 };
    r.push(
        draw_line(top, one(repeat("─", area.width as usize).as_str(), inked(p.surface1)), plain()),
    );
    r.push(
        draw_line(
            area.row_at(area.y + 1),
            one(joined2(" ", "tools").as_str(), bold(p.overlay0)),
            plain(),
        ),
    );
    assert(views(r@) =~= scene.take(2));
    let fitting: usize = area.height as usize - 2;
    let shown: usize = if steps.len() < fitting {
        steps.len()
    } else {
        fitting
    };
    let mut i: usize = 0;
    while i < shown
        invariant
            i <= shown <= steps.len(),
            shown + 2 <= area.height,
            area.fits(),
            all == views(steps@),
            scene == tools_scene(*p, area, all),
            scene.len() == shown + 2,
            views(r@) == scene.take(i + 2),
        decreases shown - i,
    {
        let ghost before = views(r@);
        assert(all[i as int] == steps@[i as int]@);
        let text = step_text(p, &steps[i], area.width);
        r.push(draw_line(area.row_at(area.y + 2 + i as u16), text, plain()));
        assert(views(r@) =~= before.push(scene[i + 2]));
        i = i + 1;
        assert(views(r@) =~= scene.take(i + 2));
    }
    assert(scene.take(i + 2) =~= scene);
    r
}

/// The rows that the dependency checks take at the bottom of the sidebar.
pub open spec fn tools_rows(steps: nat, height: int) -> int {
    if steps == 0 {
        0
    } else {
        at_most(steps as int + 2, less(height, 2))
    }
}

/// The sidebar's content: a blank column is kept at its right.
pub open spec fn sidebar_content(area: Rect) -> Rect {
    Rect { width: (area.width - 1) as u16, ..area }
}

/// The two sections of the sidebar.
pub open spec fn sidebar_areas(v: TuiView, area: Rect) -> (Rect, Rect) {
    rest_and_tail(
        sidebar_content(area),
        Axis::Down,
        2,
        tools_rows(v.stacks.steps().len(), area.height as int) as u16,
    )
}

/// The sidebar.
pub open spec fn sidebar_scene(v: TuiView, area: Rect, host: Option<Seq<char>>) -> Seq<DrawView> {
    let p = v.session.palette;
    if area.width == 0 || area.height == 0 {
        Seq::empty()
    } else {
        let areas = sidebar_areas(v, area);
        stacks_scene(p, v, areas.0, host) + (if tools_rows(
            v.stacks.steps().len(),
            area.height as int,
        ) > 0 {
            tools_scene(p, areas.1, v.stacks.steps())
        } else {
            Seq::empty()
        })
    }
}

/// The state after the sidebar was drawn.
pub open spec fn sidebar_drawn(v: TuiView, area: Rect) -> TuiView {
    if area.width == 0 || area.height == 0 {
        v
    } else {
        stacks_drawn(v, sidebar_areas(v, area).0)
    }
}

/// Draws the sidebar: stacks at the top, the dependency checks at the bottom.
pub fn render_sidebar(area: Rect, state: &mut TuiState, host: Option<&str>) -> (r: Vec<Draw>)
    requires
        area.roomy(),
        old(state).wf(),
    ensures
        final(state).wf(),
        final(state)@ == sidebar_drawn(old(state)@, area),
        views(r@) == sidebar_scene(old(state)@, area, opt_str(host)),
{
    let ghost v = state@;
    let p = *state.palette();
    if area.width == 0 || area.height == 0 {
        let r: Vec<Draw> = Vec::new();
        assert(views(r@) =~= Seq::empty());
        return r;
    }
    let content = Rect { x: area.x, y: area.y, width: area.width - 1, height: area.height };
    let steps = state.steps();
    let count: usize = steps.len();
    assert(count == v.stacks.steps().len());
    let room: u16 = content.height.saturating_sub(2);
    let tools: u16 = if count == 0 {
        0
    } else if count >= room as usize {
        room
    } else if count + 2 < room as usize {
        count as u16 + 2
    } else {
        room
    };
    assert(tools == tools_rows(count as nat, area.height as int));
    let (top, bottom) = split_tail(content, Axis::Down, 2, tools);
    let mut r = render_stacks_pane(top, state, host);
    let ghost stacks = views(r@);
    if tools > 0 {
        let mut more = render_tools_pane(&p, bottom, &steps);
        r.append(&mut more);
        assert(views(r@) =~= stacks + tools_scene(p, bottom, v.stacks.steps()));
    } else {
        assert(views(r@) =~= stacks + Seq::<DrawView>::empty());
    }
    r
}

} // verus!
