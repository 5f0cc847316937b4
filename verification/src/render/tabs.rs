//! The main pane's title and its row of tabs.
use vstd::prelude::*;

use crate::lists::{count, first_index, first_index_at, first_index_none, views};
use crate::protocol::{ServiceSnapshot, ServiceState, ServiceView};
use crate::state::tabs::is_broken;
use crate::state::{
    ClickRegion, ClickTarget, StacksView, TabEntry, TabKind, TabView, TuiState, TuiView,
};
use crate::text::{decimal, number, opt_str};
use crate::theme::{Color, Palette};

use super::glyphs::{color_of, dot_of, host_label, service_color, service_dot, short_host};
use super::layout::less;
use super::paint::{
    bold, columns, draw_line, inked, italic, joined2, joined3, line, line_at, one, plain, sp, span,
    span_of, Draw, DrawView, Flow, Ink, Line, LineView, Rect, Span, SpanView, Style,
};

verus! {

/// Running services.
pub open spec fn is_running() -> spec_fn(ServiceView) -> bool {
    |s: ServiceView| s.state is Running
}

/// The main pane's title: the version, how many services run and how many
/// failed, and the host the stacks live on.
pub open spec fn title_line(
    p: Palette,
    services: Seq<ServiceView>,
    version: Seq<char>,
    host: Option<Seq<char>>,
) -> LineView {
    let running = count(services, is_running());
    let failed = count(services, is_broken());
    (seq![sp(" devme v"@ + version + " "@, bold(p.mauve))] + (if services.len() > 0 {
        seq![
            sp(
                "• "@ + decimal(running) + "/"@ + decimal(services.len()) + " running"@,
                inked(
                    if running == services.len() {
                        p.green
                    } else if running > 0 {
                        p.yellow
                    } else {
                        p.overlay0
                    },
                ),
            ),
        ]
    } else {
        Seq::empty()
    }) + (if failed > 0 {
        seq![sp(" "@, plain()), sp("• "@ + decimal(failed) + " failed"@, inked(p.red))]
    } else {
        Seq::empty()
    }) + (match host {
        Some(h) => seq![sp(" "@, plain()), sp("⇅ "@ + host_label(h), bold(p.accent))],
        None => Seq::empty(),
    })).push(sp(" "@, plain()))
}

fn tally(services: &Vec<ServiceSnapshot>) -> (r: (usize, usize))
    ensures
        r.0 == count(views(services@), is_running()),
        r.1 == count(views(services@), is_broken()),
{
    let ghost all = views(services@);
    let mut running: usize = 0;
    let mut failed: usize = 0;
    let mut i: usize = 0;
    while i < services.len()
        invariant
            running <= i <= services.len(),
            failed <= i,
            all == views(services@),
            running == count(all.take(i as int), is_running()),
            failed == count(all.take(i as int), is_broken()),
        decreases services.len() - i,
    {
        assert(all.take(i + 1).drop_last() =~= all.take(i as int));
        assert(all.take(i + 1).last() == services@[i as int]@);
        if matches!(services[i].state, ServiceState::Running { .. }) {
            running = running + 1;
        }
        if services[i].state.is_broken() {
            failed = failed + 1;
        }
        i = i + 1;
    }
    assert(all.take(i as int) =~= all);
    (running, failed)
}

/// The title of the main pane. A stack that owns no services has nothing to
/// count.
pub fn format_main_title(state: &TuiState, version: &str, host: Option<&str>) -> (r: Line)
    ensures
        r@ == title_line(
            state@.session.palette,
            state@.stacks.services(),
            version@,
            opt_str(host),
        ),
{
    let p = *state.palette();
    let services = state.services();
    let ghost all = views(services@);
    let total: usize = services.len();
    let (running, failed) = tally(&services);
    let mut spans: Vec<Span> = Vec::new();
    spans.push(span_of(joined3(" devme v", version, " "), bold(p.mauve)));
    if total > 0 {
        let color = if running == total {
            p.green
        } else if running > 0 {
            p.yellow
        } else {
            p.overlay0
        };
        let mut text = joined3("• ", number(running as u64).as_str(), "/");
        text.append(number(total as u64).as_str());
        text.append(" running");
        spans.push(span_of(text, inked(color)));
    }
    if failed > 0 {
        spans.push(span(" ", plain()));
        spans.push(span_of(joined3("• ", number(failed as u64).as_str(), " failed"), inked(p.red)));
    }
    match host {
        Some(h) => {
            spans.push(span(" ", plain()));
            spans.push(span_of(joined2("⇅ ", short_host(h).as_str()), bold(p.accent)));
        },
        None => {},
    }
    spans.push(span(" ", plain()));
    assert(views(spans@) =~= title_line(p, all, version@, opt_str(host)));
    line(spans)
}

/// Columns, as far as a machine word counts them.
pub open spec fn plus(a: int, b: int) -> int {
    if a + b > usize::MAX {
        usize::MAX as int
    } else {
        a + b
    }
}

/// The columns of a row of spans.
pub open spec fn columns_of(spans: Seq<SpanView>) -> int
    decreases spans.len(),
{
    if spans.len() == 0 {
        0
    } else {
        plus(columns_of(spans.drop_last()), spans.last().text.len() as int)
    }
}

/// The shared tabs.
pub open spec fn shared_tab() -> spec_fn(TabView) -> bool {
    |t: TabView| t.kind == TabKind::Shared
}

/// What stands before the tab at `i`: the first shared tab is set off by a
/// labelled divider.
pub open spec fn separator(p: Palette, i: int, first_shared: Option<int>) -> Seq<SpanView> {
    if i == 0 {
        Seq::empty()
    } else if first_shared == Some(i) {
        seq![
            sp("  ┊ "@, inked(p.surface1)),
            sp("shared"@, italic(p.overlay0)),
            sp(" ┊  "@, inked(p.surface1)),
        ]
    } else {
        seq![sp(" │ "@, inked(p.surface1))]
    }
}

/// A tab's glyph, the glyph's colour and the colour of its name.
pub open spec fn tab_looks(p: Palette, t: TabView, spinner: char) -> (Seq<char>, Color, Color) {
    match t.snapshot {
        Some(s) => (
            dot_of(s.state, spinner),
            color_of(p, s.state),
            if t.kind == TabKind::Shared {
                p.subtext0
            } else {
                p.text
            },
        ),
        None => ("⚠"@, p.yellow, p.overlay0),
    }
}

/// A tab. The placeholder's label is italic.
pub open spec fn tab_spans(p: Palette, t: TabView, spinner: char, selected: bool) -> Seq<SpanView> {
    let (dot, dot_color, name_color) = tab_looks(p, t, spinner);
    let on = if selected {
        Some(Ink::Theme(p.surface0))
    } else {
        None
    };
    let pad = sp(" "@, Style { fg: None, bg: on, bold: false, italic: false });
    seq![
        pad,
        sp(
            dot,
            Style { fg: Some(Ink::Theme(dot_color)), bg: on, bold: selected, italic: false },
        ),
        pad,
        sp(
            t.label,
            Style {
                fg: Some(
                    Ink::Theme(
                        if selected {
                            p.text
                        } else {
                            name_color
                        },
                    ),
                ),
                bg: on,
                bold: selected,
                italic: t.snapshot is None,
            },
        ),
        pad,
    ]
}

/// What the tab row is drawn from.
pub ghost struct TabsView {
    pub palette: Palette,
    pub tabs: Seq<TabView>,
    pub selected: int,
    pub spinner: char,
}

impl TabsView {
    pub open spec fn first_shared(self) -> Option<int> {
        first_index(self.tabs, shared_tab())
    }

    pub open spec fn separator(self, i: int) -> Seq<SpanView> {
        separator(self.palette, i, self.first_shared())
    }

    pub open spec fn tab(self, i: int) -> Seq<SpanView> {
        tab_spans(self.palette, self.tabs[i], self.spinner, i == self.selected)
    }

    /// The row of the first `n` tabs.
    pub open spec fn row(self, n: nat) -> Seq<SpanView>
        decreases n,
    {
        if n == 0 {
            Seq::empty()
        } else {
            self.row((n - 1) as nat) + self.separator(n - 1) + self.tab(n - 1)
        }
    }

    /// The column in which the tab at `i` starts.
    pub open spec fn start(self, i: int) -> int {
        columns_of(self.row(i as nat) + self.separator(i))
    }

    /// The column in which the tab at `i` ends.
    pub open spec fn end(self, i: int) -> int {
        columns_of(self.row((i + 1) as nat))
    }

    pub open spec fn total(self) -> int {
        columns_of(self.row(self.tabs.len()))
    }
}

proof fn columns_add(a: Seq<SpanView>, b: SpanView)
    ensures
        columns_of(a.push(b)) == plus(columns_of(a), b.text.len() as int),
        0 <= columns_of(a) <= usize::MAX,
    decreases a.len(),
{
    assert(a.push(b).drop_last() =~= a);
    if a.len() > 0 {
        columns_add(a.drop_last(), a.last());
        assert(a.drop_last().push(a.last()) =~= a);
    }
}

fn put(spans: &mut Vec<Span>, col: &mut usize, s: Span)
    requires
        *old(col) == columns_of(views(old(spans)@)),
    ensures
        views(final(spans)@) == views(old(spans)@).push(s@),
        *final(col) == columns_of(views(final(spans)@)),
{
    let ghost before = views(spans@);
    let ghost v = s@;
    *col = col.saturating_add(columns(s.text.as_str()));
    spans.push(s);
    assert(views(spans@) =~= before.push(v));
    proof {
        columns_add(before, v);
    }
}

fn put_tab(
    spans: &mut Vec<Span>,
    col: &mut usize,
    p: &Palette,
    t: &TabEntry,
    spinner: char,
    selected: bool,
)
    requires
        *old(col) == columns_of(views(old(spans)@)),
    ensures
        views(final(spans)@) == views(old(spans)@) + tab_spans(*p, t@, spinner, selected),
        *final(col) == columns_of(views(final(spans)@)),
{
    let ghost before = views(spans@);
    let (dot, dot_color, name_color): (String, Color, Color) = match &t.snapshot {
        Some(s) => (
            service_dot(&s.state, spinner),
            service_color(p, &s.state),
            if t.is_shared() {
                p.subtext0
            } else {
                p.text
            },
        ),
        None => ("⚠".to_owned(), p.yellow, p.overlay0),
    };
    let on = if selected {
        Some(Ink::Theme(p.surface0))
    } else {
        None
    };
    let pad = Style { fg: None, bg: on, bold: false, italic: false };
    let dot_style = Style {
        fg: Some(Ink::Theme(dot_color)),
        bg: on,
        bold: selected,
        italic: false,
    };
    let name_style = Style {
        fg: Some(
            Ink::Theme(
                if selected {
                    p.text
                } else {
                    name_color
                },
            ),
        ),
        bg: on,
        bold: selected,
        italic: t.snapshot.is_none(),
    };
    put(spans, col, span(" ", pad));
    put(spans, col, span_of(dot, dot_style));
    put(spans, col, span(" ", pad));
    put(spans, col, span(t.label.as_str(), name_style));
    put(spans, col, span(" ", pad));
    assert(views(spans@) =~= before + tab_spans(*p, t@, spinner, selected));
}

fn put_separator(
    spans: &mut Vec<Span>,
    col: &mut usize,
    p: &Palette,
    i: usize,
    first_shared: Option<usize>,
    first: Ghost<Option<int>>,
)
    requires
        *old(col) == columns_of(views(old(spans)@)),
        match first_shared {
            Some(k) => first@ == Some(k as int),
            None => first@ is None,
        },
    ensures
        views(final(spans)@) == views(old(spans)@) + separator(*p, i as int, first@),
        *final(col) == columns_of(views(final(spans)@)),
{
    let ghost before = views(spans@);
    if i > 0 {
        let labelled = match first_shared {
            Some(k) => k == i,
            None => false,
        };
        if labelled {
            put(spans, col, span("  ┊ ", inked(p.surface1)));
            put(spans, col, span("shared", italic(p.overlay0)));
            put(spans, col, span(" ┊  ", inked(p.surface1)));
        } else {
            put(spans, col, span(" │ ", inked(p.surface1)));
        }
    }
    assert(views(spans@) =~= before + separator(*p, i as int, first@));
}

fn find_shared(tabs: &Vec<TabEntry>) -> (r: Option<usize>)
    ensures
        match r {
            Some(k) => first_index(views(tabs@), shared_tab()) == Some(k as int),
            None => first_index(views(tabs@), shared_tab()) is None,
        },
{
    let ghost all = views(tabs@);
    let mut i: usize = 0;
    while i < tabs.len()
        invariant
            i <= tabs.len(),
            all == views(tabs@),
            forall|j: int| 0 <= j < i ==> !shared_tab()(all[j]),
        decreases tabs.len() - i,
    {
        assert(all[i as int] == tabs@[i as int]@);
        if tabs[i].is_shared() {
            proof {
                first_index_at(all, shared_tab(), i as int);
            }
            return Some(i);
        }
        i = i + 1;
    }
    proof {
        first_index_none(all, shared_tab());
    }
    None
}

/// The row with the columns of each tab.
pub struct BuiltRow {
    pub spans: Vec<Span>,
    pub total: usize,
    /// Where each tab starts and ends.
    pub ranges: Vec<(usize, usize)>,
}

fn build_row(
    p: &Palette,
    tabs: &Vec<TabEntry>,
    selected: usize,
    spinner: char,
) -> (r: BuiltRow)
    ensures
        ({
            let t = TabsView {
                palette: *p,
                tabs: views(tabs@),
                selected: selected as int,
                spinner,
            };
            &&& views(r.spans@) == t.row(tabs@.len())
            &&& r.total == t.total()
            &&& r.ranges@.len() == tabs@.len()
            &&& forall|i: int|
                0 <= i < r.ranges@.len() ==> (#[trigger] r.ranges@[i]).0 == t.start(i)
                    && r.ranges@[i].1 == t.end(i)
        }),
{
    let ghost t = TabsView { palette: *p, tabs: views(tabs@), selected: selected as int, spinner };
    let first = find_shared(tabs);
    let mut spans: Vec<Span> = Vec::new();
    let mut ranges: Vec<(usize, usize)> = Vec::new();
    let mut col: usize = 0;
    assert(views(spans@) =~= t.row(0));
    let mut i: usize = 0;
    while i < tabs.len()
        invariant
            i <= tabs.len(),
            t == (TabsView {
                palette: *p,
                tabs: views(tabs@),
                selected: selected as int,
                spinner,
            }),
            match first {
                Some(k) => t.first_shared() == Some(k as int),
                None => t.first_shared() is None,
            },
            views(spans@) == t.row(i as nat),
            col == columns_of(views(spans@)),
            ranges@.len() == i,
            forall|j: int|
                0 <= j < i ==> (#[trigger] ranges@[j]).0 == t.start(j) && ranges@[j].1 == t.end(j),
        decreases tabs.len() - i,
    {
        put_separator(&mut spans, &mut col, p, i, first, Ghost(t.first_shared()));
        let start: usize = col;
        assert(t.tabs[i as int] == tabs@[i as int]@);
        put_tab(&mut spans, &mut col, p, &tabs[i], spinner, i == selected);
        assert(views(spans@) =~= t.row((i + 1) as nat));
        assert(start == t.start(i as int));
        assert(col == t.end(i as int));
        ranges.push((start, col));
        i = i + 1;
    }
    BuiltRow { spans, total: col, ranges }
}

/// How far the tab row is scrolled, for which stack and tab it was last drawn,
/// and where it is.
#[derive(Debug, Clone, Copy, PartialEq, Eq)]
pub struct TabRow {
    pub scroll: usize,
    pub context: Option<(usize, usize)>,
    pub area: Option<Rect>,
}

impl TabRow {
    pub fn new() -> (r: Self)
        ensures
            r == (TabRow { scroll: 0, context: None, area: None }),
    {
        TabRow { scroll: 0, context: None, area: None }
    }

    /// The row scrolled by hand.
    pub open spec fn moved(self, cols: i32) -> TabRow {
        TabRow {
            scroll: (if self.scroll + cols < 0 {
                0
            } else if self.scroll + cols > usize::MAX {
                usize::MAX as int
            } else {
                self.scroll + cols
            }) as usize,
            ..self
        }
    }

    /// Scrolls the row by hand; the next frame keeps it within its content.
    pub fn scroll_tabs(&mut self, cols: i32)
        ensures
            *final(self) == old(self).moved(cols),
            *final(self) == (TabRow {
                scroll: (if old(self).scroll + cols < 0 {
                    0
                } else if old(self).scroll + cols > usize::MAX {
                    usize::MAX as int
                } else {
                    old(self).scroll + cols
                }) as usize,
                ..*old(self)
            }),
    {
        if cols < 0 {
            let back: u32 = (0 - cols as i64) as u32;
            self.scroll = self.scroll.saturating_sub(back as usize);
        } else {
            self.scroll = self.scroll.saturating_add(cols as usize);
        }
    }

    /// The cell lies on the row.
    pub open spec fn covers(self, col: u16, row: u16) -> bool {
        match self.area {
            Some(a) => a.x <= col < a.x + a.width && a.y <= row < a.y + a.height,
            None => false,
        }
    }

    /// The columns that the row has.
    pub fn width(&self) -> (r: u16)
        ensures
            r == match self.area {
                Some(a) => a.width,
                None => 0,
            },
    {
        match self.area {
            Some(a) => a.width,
            None => 0,
        }
    }

    /// Whether a cell lies on the row.
    pub fn tab_row_at(&self, col: u16, row: u16) -> (r: bool)
        ensures
            r == self.covers(col, row),
    {
        match self.area {
            Some(a) => a.x <= col && (col as u32) < a.x as u32 + a.width as u32 && a.y <= row
                && (row as u32) < a.y as u32 + a.height as u32,
            None => false,
        }
    }
}

/// The scroll offset for a row of `total` columns in `avail`: the offset set by
/// hand, moved only where the selection moved and is out of view.
pub open spec fn tab_scroll(
    scroll: int,
    moved: bool,
    range: Option<(int, int)>,
    total: int,
    avail: int,
) -> int {
    let last = less(total, avail);
    let by_hand = if scroll < last {
        scroll
    } else {
        last
    };
    let revealed = match range {
        Some((start, end)) => if moved {
            let pulled = if end > by_hand + avail {
                end - avail
            } else {
                by_hand
            };
            if start < pulled {
                start
            } else {
                pulled
            }
        } else {
            by_hand
        },
        None => by_hand,
    };
    if revealed < last {
        revealed
    } else {
        last
    }
}

/// Chooses the scroll offset of the tab row.
pub fn place_tabs(
    scroll: usize,
    moved: bool,
    range: Option<(usize, usize)>,
    total: usize,
    avail: u16,
) -> (r: usize)
    requires
        range matches Some(g) ==> g.0 <= total && g.1 <= total,
    ensures
        r == tab_scroll(
            scroll as int,
            moved,
            match range {
                Some(g) => Some((g.0 as int, g.1 as int)),
                None => None,
            },
            total as int,
            avail as int,
        ),
        r <= total,
{
    let wide: usize = avail as usize;
    let last: usize = total.saturating_sub(wide);
    let mut x: usize = if scroll < last {
        scroll
    } else {
        last
    };
    match range {
        Some((start, end)) => {
            if moved {
                if end > wide && end - wide > x {
                    x = end - wide;
                }
                if start < x {
                    x = start;
                }
            }
        },
        None => {},
    }
    if x < last {
        x
    } else {
        last
    }
}

/// The stack that the tabs belong to.
pub open spec fn tabs_stack(v: StacksView) -> usize {
    if v.shared_selected {
        usize::MAX
    } else {
        match v.selected_instance {
            Some(i) => i,
            None => usize::MAX,
        }
    }
}

/// The selected tab of a stack.
pub open spec fn tab_selected(v: StacksView) -> usize {
    match v.selected_index() {
        Some(i) => if i < v.tabs().len() {
            i
        } else {
            0
        },
        None => 0,
    }
}

/// What the tab row of a state is drawn from.
pub open spec fn tabs_view(v: TuiView) -> TabsView {
    TabsView {
        palette: v.session.palette,
        tabs: v.stacks.tabs(),
        selected: tab_selected(v.stacks) as int,
        spinner: crate::state::toasts::spinner_frames()[v.session.spinner_tick as int % 10],
    }
}

/// The offset at which the tab row is drawn.
pub open spec fn tabs_scroll(v: TuiView, row: TabRow, area: Rect) -> int {
    let t = tabs_view(v);
    tab_scroll(
        row.scroll as int,
        row.context != Some((tabs_stack(v.stacks), tab_selected(v.stacks))),
        Some((t.start(t.selected), t.end(t.selected))),
        t.total(),
        area.width as int,
    )
}

/// What is said where there are no tabs.
pub open spec fn no_tabs_text(v: StacksView) -> Seq<char> {
    if v.current_vacant() {
        "no devme.toml in "@ + v.current_cwd() + " — add one to start services"@
    } else {
        "no services declared in devme.toml"@
    }
}

pub open spec fn tabs_go_left(v: TuiView, row: TabRow, area: Rect) -> bool {
    tabs_scroll(v, row, area) > 0
}

pub open spec fn tabs_go_right(v: TuiView, row: TabRow, area: Rect) -> bool {
    less(tabs_view(v).total(), tabs_scroll(v, row, area)) > area.width
}

pub open spec fn left_cell(area: Rect) -> Rect {
    Rect { width: 1, ..area }
}

pub open spec fn right_cell(area: Rect) -> Rect {
    Rect { x: (area.x + less(area.width as int, 1)) as u16, width: 1, ..area }
}

/// The tab row, with a marker at each edge beyond which it goes on.
pub open spec fn tabs_scene(v: TuiView, row: TabRow, area: Rect) -> Seq<DrawView> {
    let p = v.session.palette;
    let t = tabs_view(v);
    if t.tabs.len() == 0 {
        seq![line_at(area, seq![sp(no_tabs_text(v.stacks), italic(p.overlay0))], plain())]
    } else {
        seq![
            DrawView::Text {
                area,
                lines: seq![t.row(t.tabs.len())],
                flow: Flow::Cut { scroll: tabs_scroll(v, row, area) as usize as u16 },
                fill: plain(),
            },
        ] + (if tabs_go_left(v, row, area) {
            seq![line_at(left_cell(area), seq![sp("‹"@, bold(p.accent))], plain())]
        } else {
            Seq::empty()
        }) + (if tabs_go_right(v, row, area) {
            seq![line_at(right_cell(area), seq![sp("›"@, bold(p.accent))], plain())]
        } else {
            Seq::empty()
        })
    }
}

/// The tab row's state after it was drawn.
pub open spec fn row_drawn(v: TuiView, row: TabRow, area: Rect) -> TabRow {
    if tabs_view(v).tabs.len() == 0 {
        row
    } else {
        TabRow {
            scroll: tabs_scroll(v, row, area) as usize,
            context: Some((tabs_stack(v.stacks), tab_selected(v.stacks))),
            area: Some(area),
        }
    }
}

/// The part of a tab that is on screen and clear of the edge markers: where it
/// starts and ends.
pub open spec fn visible_part(
    area: Rect,
    scroll: int,
    left: bool,
    right: bool,
    start: int,
    end: int,
) -> Option<(int, int)> {
    let from = if start > scroll {
        start
    } else {
        scroll
    };
    let to = if end < scroll + area.width {
        end
    } else {
        scroll + area.width
    };
    if from >= to {
        None
    } else {
        let left_edge = area.x + if left {
            1int
        } else {
            0
        };
        let right_edge = if right {
            area.x + less(area.width as int, 1)
        } else {
            area.x + area.width
        };
        let x = area.x + from - scroll;
        let e = area.x + to - scroll;
        let sx = if x > left_edge {
            x
        } else {
            left_edge
        };
        let ex = if e < right_edge {
            e
        } else {
            right_edge
        };
        if sx >= ex {
            None
        } else {
            Some((sx, ex))
        }
    }
}

/// The click regions of the first `n` tabs.
pub open spec fn tab_regions(v: TuiView, row: TabRow, area: Rect, n: nat) -> Seq<ClickRegion>
    decreases n,
{
    if n == 0 {
        Seq::empty()
    } else {
        let before = tab_regions(v, row, area, (n - 1) as nat);
        let t = tabs_view(v);
        match visible_part(
            area,
            tabs_scroll(v, row, area),
            tabs_go_left(v, row, area),
            tabs_go_right(v, row, area),
            t.start(n - 1),
            t.end(n - 1),
        ) {
            Some((sx, ex)) => before.push(
                ClickRegion {
                    x: sx as u16,
                    y: area.y,
                    w: (ex - sx) as u16,
                    h: area.height,
                    target: ClickTarget::Tab((n - 1) as usize),
                },
            ),
            None => before,
        }
    }
}

/// The click region of a cell at the row's edge.
pub open spec fn edge_region(cell: Rect, target: ClickTarget) -> ClickRegion {
    ClickRegion { x: cell.x, y: cell.y, w: cell.width, h: cell.height, target }
}

/// The click regions of the edge markers that are shown.
pub open spec fn marker_regions(v: TuiView, row: TabRow, area: Rect) -> Seq<ClickRegion> {
    (if tabs_go_left(v, row, area) {
        seq![edge_region(left_cell(area), ClickTarget::TabScrollLeft)]
    } else {
        Seq::empty()
    }) + (if tabs_go_right(v, row, area) {
        seq![edge_region(right_cell(area), ClickTarget::TabScrollRight)]
    } else {
        Seq::empty()
    })
}

/// The click regions of the row: those of the markers come first, so that they
/// win the cell that they share with a tab.
pub open spec fn row_regions(v: TuiView, row: TabRow, area: Rect, n: nat) -> Seq<ClickRegion> {
    marker_regions(v, row, area) + tab_regions(v, row, area, n)
}

/// The state after the tab row was drawn.
pub open spec fn tabs_drawn(v: TuiView, row: TabRow, area: Rect) -> TuiView {
    let n = tabs_view(v).tabs.len();
    if n == 0 {
        v
    } else {
        v.with_regions(row_regions(v, row, area, n))
    }
}

fn part_on_screen(
    area: Rect,
    scroll: usize,
    left: bool,
    right: bool,
    start: usize,
    end: usize,
) -> (r: Option<(u16, u16)>)
    requires
        area.fits(),
        area.x + area.width < u16::MAX,
    ensures
        match r {
            Some((sx, ex)) => visible_part(
                area,
                scroll as int,
                left,
                right,
                start as int,
                end as int,
            ) == Some((sx as int, ex as int)) && sx < ex,
            None => visible_part(
                area,
                scroll as int,
                left,
                right,
                start as int,
                end as int,
            ) is None,
        },
{
    let wide: usize = area.width as usize;
    let from: usize = if start > scroll {
        start - scroll
    } else {
        0
    };
    if end <= scroll {
        return None;
    }
    let to: usize = if end - scroll < wide {
        end - scroll
    } else {
        wide
    };
    if from >= to {
        return None;
    }
    let left_edge: u16 = if left {
        area.x + 1
    } else {
        area.x
    };
    let right_edge: u16 = if right {
        area.x + area.width.saturating_sub(1)
    } else {
        area.x + area.width
    };
    let x: u16 = area.x + from as u16;
    let e: u16 = area.x + to as u16;
    let sx: u16 = if x > left_edge {
        x
    } else {
        left_edge
    };
    let ex: u16 = if e < right_edge {
        e
    } else {
        right_edge
    };
    if sx >= ex {
        None
    } else {
        Some((sx, ex))
    }
}

proof fn columns_grow(a: Seq<SpanView>, b: Seq<SpanView>)
    ensures
        columns_of(a) <= columns_of(a + b) <= usize::MAX,
    decreases b.len(),
{
    if b.len() == 0 {
        assert(a + b =~= a);
        if a.len() > 0 {
            columns_add(a.drop_last(), a.last());
        }
    } else {
        columns_grow(a, b.drop_last());
        columns_add(a + b.drop_last(), b.last());
        assert((a + b.drop_last()).push(b.last()) =~= a + b);
    }
}

proof fn rows_grow(t: TabsView, n: nat, m: nat)
    requires
        n <= m,
    ensures
        columns_of(t.row(n)) <= columns_of(t.row(m)),
    decreases m - n,
{
    if n < m {
        rows_grow(t, n, (m - 1) as nat);
        columns_grow(t.row((m - 1) as nat), t.separator(m - 1));
        columns_grow(t.row((m - 1) as nat) + t.separator(m - 1), t.tab(m - 1));
    }
}

proof fn tab_in_row(t: TabsView, i: int)
    requires
        0 <= i < t.tabs.len(),
    ensures
        t.start(i) <= t.end(i) <= t.total(),
{
    columns_grow(t.row(i as nat) + t.separator(i), t.tab(i));
    rows_grow(t, (i + 1) as nat, t.tabs.len());
}

/// Records what can be clicked in the row.
fn add_tab_regions(
    state: &mut TuiState,
    area: Rect,
    scroll: usize,
    left: bool,
    right: bool,
    ranges: &Vec<(usize, usize)>,
    v: Ghost<TuiView>,
    row: Ghost<TabRow>,
)
    requires
        old(state).wf(),
        old(state)@ == v@,
        area.fits(),
        area.x + area.width < u16::MAX,
        scroll == tabs_scroll(v@, row@, area),
        left == tabs_go_left(v@, row@, area),
        right == tabs_go_right(v@, row@, area),
        ranges@.len() == tabs_view(v@).tabs.len(),
        ranges@.len() > 0,
        forall|i: int|
            0 <= i < ranges@.len() ==> (#[trigger] ranges@[i]).0 == tabs_view(v@).start(i)
                && ranges@[i].1 == tabs_view(v@).end(i),
    ensures
        final(state).wf(),
        final(state)@ == tabs_drawn(v@, row@, area),
{
    let ghost v = v@;
    let ghost row = row@;
    if left {
        state.push_click_region(area.x, area.y, 1, area.height, ClickTarget::TabScrollLeft);
    }
    if right {
        let x: u16 = area.x + area.width.saturating_sub(1);
        state.push_click_region(x, area.y, 1, area.height, ClickTarget::TabScrollRight);
    }
    let mut i: usize = 0;
    assert(state@.hits.click_regions =~= v.hits.click_regions + row_regions(v, row, area, 0));
    while i < ranges.len()
        invariant
            i <= ranges.len(),
            state.wf(),
            area.fits(),
            area.x + area.width < u16::MAX,
            scroll == tabs_scroll(v, row, area),
            left == tabs_go_left(v, row, area),
            right == tabs_go_right(v, row, area),
            forall|i: int|
                0 <= i < ranges@.len() ==> (#[trigger] ranges@[i]).0 == tabs_view(v).start(i)
                    && ranges@[i].1 == tabs_view(v).end(i),
            state@ == v.with_regions(row_regions(v, row, area, i as nat)),
        decreases ranges.len() - i,
    {
        let (start, end): (usize, usize) = ranges[i];
        match part_on_screen(area, scroll, left, right, start, end) {
            Some((sx, ex)) => {
                state.push_click_region(sx, area.y, ex - sx, area.height, ClickTarget::Tab(i));
            },
            None => {},
        }
        i = i + 1;
        assert(state@.hits.click_regions =~= v.hits.click_regions + row_regions(
            v,
            row,
            area,
            i as nat,
        ));
    }
}

fn row_draws(
    p: &Palette,
    area: Rect,
    spans: Vec<Span>,
    scroll: usize,
    left: bool,
    right: bool,
) -> (r: Vec<Draw>)
    requires
        area.fits(),
    ensures
        views(r@) == seq![
            DrawView::Text {
                area,
                lines: seq![views(spans@)],
                flow: Flow::Cut { scroll: scroll as u16 },
                fill: plain(),
            },
        ] + (if left {
            seq![line_at(left_cell(area), seq![sp("‹"@, bold(p.accent))], plain())]
        } else {
            Seq::empty()
        }) + (if right {
            seq![line_at(right_cell(area), seq![sp("›"@, bold(p.accent))], plain())]
        } else {
            Seq::empty()
        }),
{
    let ghost v = views(spans@);
    let mut lines: Vec<Line> = Vec::new();
    lines.push(line(spans));
    assert(views(lines@) =~= seq![v]);
    let mut r: Vec<Draw> = Vec::new();
    let x: u16 = scroll as u16;
    r.push(Draw::Text { area, lines, flow: Flow::Cut { scroll: x }, fill: plain() });
    if left {
        let cell = Rect { x: area.x, y: area.y, width: 1, height: area.height };
        r.push(draw_line(cell, one("‹", bold(p.accent)), plain()));
    }
    if right {
        let cell = Rect {
            x: area.x + area.width.saturating_sub(1),
            y: area.y,
            width: 1,
            height: area.height,
        };
        r.push(draw_line(cell, one("›", bold(p.accent)), plain()));
    }
    r
}

/// Draws the tab row. The offset set by hand is kept, but when the selection
/// moves the selected tab is scrolled back into view.
pub fn render_tabs(area: Rect, state: &mut TuiState, row: &mut TabRow) -> (r: Vec<Draw>)
    requires
        area.fits(),
        area.x + area.width < u16::MAX,
        old(state).wf(),
    ensures
        final(state).wf(),
        final(state)@ == tabs_drawn(old(state)@, *old(row), area),
        *final(row) == row_drawn(old(state)@, *old(row), area),
        views(r@) == tabs_scene(old(state)@, *old(row), area),
{
    let ghost v = state@;
    let ghost was = *row;
    let p = *state.palette();
    let tabs = state.tab_services();
    assert(views(tabs@) == v.stacks.tabs());
    if tabs.len() == 0 {
        let text: String = if state.current_instance_is_placeholder() {
            joined3(
                "no devme.toml in ",
                state.current_instance_cwd(),
                " — add one to start services",
            )
        } else {
            "no services declared in devme.toml".to_owned()
        };
        let mut r: Vec<Draw> = Vec::new();
        r.push(draw_line(area, one(text.as_str(), italic(p.overlay0)), plain()));
        assert(views(r@) =~= tabs_scene(v, was, area));
        return r;
    }
    let selected: usize = state.selected_tab_index();
    let spinner: char = state.spinner_frame();
    let ghost t = tabs_view(v);
    let built = build_row(&p, &tabs, selected, spinner);
    let stack: usize = if state.shared_selected() {
        usize::MAX
    } else {
        match state.selected_instance_index() {
            Some(i) => i,
            None => usize::MAX,
        }
    };
    let moved = match row.context {
        Some((s, i)) => !(s == stack && i == selected),
        None => true,
    };
    proof {
        tab_in_row(t, selected as int);
    }
    let range = built.ranges[selected];
    let scroll: usize = place_tabs(row.scroll, moved, Some(range), built.total, area.width);
    assert(scroll == tabs_scroll(v, was, area));
    let left = scroll > 0;
    let right = built.total.saturating_sub(scroll) > area.width as usize;
    row.scroll = scroll;
    row.context = Some((stack, selected));
    row.area = Some(area);
    add_tab_regions(state, area, scroll, left, right, &built.ranges, Ghost(v), Ghost(was));
    row_draws(&p, area, built.spans, scroll, left, right)
}

} // verus!
