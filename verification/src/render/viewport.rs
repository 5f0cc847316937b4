//! The log viewport, the line below it, copy mode and zoom.
use std::collections::VecDeque;

use vstd::prelude::*;

use crate::lists::views;
use crate::protocol::{ServiceSnapshot, ServiceState, ServiceView, StateView};
use crate::state::scroll::{minus, page, window};
use crate::state::{HitsView, Layout, ScrollbarHit, TuiState, TuiView};
use crate::text::{decimal, lines, lines_of, number, texts};
use crate::theme::Palette;

use super::glyphs::{color_of, label_of, service_color, state_label};
use super::layout::{at_most, less, rest_and_tail, slice, split_columns, split_tail, Axis};
use super::paint::{
    badge, bold, chip, coloured, columns, draw_line, inked, italic, joined2, joined3, line,
    line_at, one, plain, slanted, sp, span, span_of, strong, three, Draw, DrawView, Flow, Ink,
    Line, LineView, LogLine, LogRun, Rect, RunView, Span,
};

verus! {

/// The styled lines that `ansi-to-tui` makes of a log line; `None` where it
/// fails.
pub uninterp spec fn ansi_parsed(text: Seq<char>) -> Option<Seq<Seq<RunView>>>;

/// `IntoText::into_text` of `ansi-to-tui` on the line's bytes, its error
/// dropped, with `ratatui`'s spans turned into runs field by field: the result
/// is a function of the line alone. How escape sequences map to styles is left
/// unsaid.
#[verifier::external_body]
pub(crate) fn parse_ansi(text: &str) -> (r: Option<Vec<LogLine>>)
    ensures
        (match r {
            Some(v) => Some(views(v@)),
            None => None,
        }) == ansi_parsed(text@),
{
    let parsed = ansi_to_tui::IntoText::into_text(&text.as_bytes()).ok()?;
    let run = |s: ratatui::text::Span<'static>| LogRun {
        text: s.content.into_owned(),
        fg: s.style.fg.map(|c| c.to_string()),
        bg: s.style.bg.map(|c| c.to_string()),
        add: s.style.add_modifier.bits(),
        sub: s.style.sub_modifier.bits(),
    };
    let lines = parsed.lines.into_iter();
    Some(lines.map(|l| LogLine { runs: l.spans.into_iter().map(run).collect() }).collect())
}

/// A run of text without a style.
pub open spec fn bare(text: Seq<char>) -> RunView {
    RunView { text, fg: None, bg: None, add: 0, sub: 0 }
}

/// The lines of a text: an empty text is one empty line.
pub open spec fn raw_lines(text: Seq<char>) -> Seq<Seq<char>> {
    if text.len() == 0 {
        seq![text]
    } else {
        lines_of(text)
    }
}

/// What is shown of a log line: what the parser made of it, else the line as it
/// is.
pub open spec fn shown_of(text: Seq<char>, parsed: Option<Seq<Seq<RunView>>>) -> Seq<
    Seq<RunView>,
> {
    match parsed {
        Some(styled) => styled,
        None => raw_lines(text).map_values(|l: Seq<char>| seq![bare(l)]),
    }
}

/// What the log pane shows of `logs`.
pub open spec fn styled_logs(logs: Seq<Seq<char>>) -> Seq<Seq<RunView>>
    decreases logs.len(),
{
    if logs.len() == 0 {
        Seq::empty()
    } else {
        styled_logs(logs.drop_last()) + shown_of(logs.last(), ansi_parsed(logs.last()))
    }
}

fn raw_texts(text: &str) -> (r: Vec<String>)
    ensures
        texts(r@) == raw_lines(text@),
{
    if text.is_empty() {
        let mut r: Vec<String> = Vec::new();
        r.push(text.to_owned());
        assert(texts(r@) =~= seq![text@]);
        return r;
    }
    lines(text)
}

/// Chooses what is shown of a log line, given what the parser made of it.
pub fn shown_lines(text: &str, parsed: Option<Vec<LogLine>>) -> (r: Vec<LogLine>)
    ensures
        views(r@) == shown_of(
            text@,
            match parsed {
                Some(v) => Some(views(v@)),
                None => None,
            },
        ),
{
    match parsed {
        Some(styled) => styled,
        None => {
            let raw = raw_texts(text);
            let ghost all = raw_lines(text@).map_values(|l: Seq<char>| seq![bare(l)]);
            let mut r: Vec<LogLine> = Vec::new();
            assert(views(r@) =~= all.take(0));
            let mut i: usize = 0;
            while i < raw.len()
                invariant
                    i <= raw.len(),
                    texts(raw@) == raw_lines(text@),
                    all == raw_lines(text@).map_values(|l: Seq<char>| seq![bare(l)]),
                    views(r@) == all.take(i as int),
                decreases raw.len() - i,
            {
                let ghost before = views(r@);
                let mut runs: Vec<LogRun> = Vec::new();
                runs.push(
                    LogRun { text: raw[i].clone(), fg: None, bg: None, add: 0, sub: 0 },
                );
                assert(raw_lines(text@)[i as int] == raw@[i as int]@);
                assert(views(runs@) =~= seq![bare(raw@[i as int]@)]);
                r.push(LogLine { runs });
                assert(views(r@) =~= before.push(all[i as int]));
                i = i + 1;
                assert(views(r@) =~= all.take(i as int));
            }
            assert(all.take(i as int) =~= all);
            r
        },
    }
}

fn style_logs(logs: &VecDeque<String>, start: usize, end: usize) -> (r: Vec<LogLine>)
    requires
        start <= end <= logs@.len(),
    ensures
        views(r@) == styled_logs(texts(logs@).subrange(start as int, end as int)),
{
    let ghost all = texts(logs@).subrange(start as int, end as int);
    let mut r: Vec<LogLine> = Vec::new();
    assert(views(r@) =~= styled_logs(all.take(0)));
    let mut i: usize = start;
    while i < end
        invariant
            start <= i <= end <= logs@.len(),
            all == texts(logs@).subrange(start as int, end as int),
            views(r@) == styled_logs(all.take(i - start)),
        decreases end - i,
    {
        let ghost k = i - start;
        let ghost before = views(r@);
        assert(all.take(k + 1).drop_last() =~= all.take(k));
        assert(all.take(k + 1).last() == logs@[i as int]@);
        let text = logs[i].as_str();
        let parsed = parse_ansi(text);
        let mut more = shown_lines(text, parsed);
        r.append(&mut more);
        assert(views(r@) =~= before + shown_of(all[k], ansi_parsed(all[k])));
        i = i + 1;
    }
    assert(all.take(i - start) =~= all);
    r
}

/// What stands in for the logs of a service that has written nothing.
pub open spec fn no_logs_text(state: StateView) -> Seq<char> {
    match state {
        StateView::Stopped => "stopped — press S to start"@,
        StateView::Starting => "starting…"@,
        _ => "no output yet"@,
    }
}

/// The placeholder tab is selected.
pub open spec fn on_placeholder(v: TuiView) -> bool {
    v.stacks.has_placeholder_tab() && (v.stacks.selected_index() is None
        || v.stacks.selected_index() == Some(0usize))
}

/// What the viewport says instead of logs; `None` where there are logs.
pub open spec fn viewport_message(v: TuiView, area: Rect) -> Option<DrawView> {
    if on_placeholder(v) {
        Some(
            DrawView::Text {
                area,
                lines: raw_lines(v.stacks.explanation()).map_values(
                    |l: Seq<char>| seq![sp(l, plain())],
                ),
                flow: Flow::Wrapped,
                fill: italic(v.session.palette.overlay0),
            },
        )
    } else {
        match v.stacks.selected() {
            None => Some(
                line_at(area, seq![sp("no service selected"@, slanted(Ink::DarkGray))], plain()),
            ),
            Some(s) => if v.stacks.lines(s.name).len() == 0 {
                Some(
                    line_at(area, seq![sp(no_logs_text(s.state), slanted(Ink::DarkGray))], plain()),
                )
            } else {
                None
            },
        }
    }
}

/// Where the log text and the scrollbar go: a blank column on both sides of the
/// text where there is room for them, and no scrollbar where there is hardly
/// room for text.
pub open spec fn viewport_areas(area: Rect) -> (Rect, Option<Rect>) {
    if area.width >= 5 {
        (
            slice(area, Axis::Across, 1, area.width - 3),
            Some(slice(area, Axis::Across, area.width - 1, 1)),
        )
    } else if area.width >= 3 {
        let (text, bar) = rest_and_tail(area, Axis::Across, 0, 1);
        (text, Some(bar))
    } else {
        (area, None)
    }
}

/// The badge of a viewport that is scrolled back.
pub open spec fn paused_text(offset: nat) -> Seq<char> {
    " PAUSED · "@ + decimal(offset) + " behind · G to follow "@
}

/// The log text, its scrollbar, and the badge while it is scrolled back.
pub open spec fn logs_scene(
    logs: Seq<Seq<char>>,
    offset: int,
    text: Rect,
    bar: Option<Rect>,
) -> Seq<DrawView> {
    let rows = page(text.height as usize);
    let last = less(logs.len() as int, rows);
    let start = minus(minus(logs.len() as int, offset), rows);
    let mark = paused_text(offset as nat);
    seq![DrawView::Logs { area: text, lines: styled_logs(window(logs, offset, rows)) }] + (
    match bar {
        Some(b) => seq![
            DrawView::Scrollbar {
                area: b,
                steps: last as usize,
                position: at_most(start, last) as usize,
                paused: offset > 0,
            },
        ],
        None => Seq::empty(),
    }) + (if offset > 0 && mark.len() <= text.width {
        seq![
            line_at(
                Rect {
                    x: (text.x + text.width - mark.len()) as u16,
                    y: text.y,
                    width: mark.len() as u16,
                    height: 1,
                },
                seq![sp(mark, badge(Ink::Yellow))],
                plain(),
            ),
        ]
    } else {
        Seq::empty()
    })
}

/// The viewport.
pub open spec fn viewport_scene(v: TuiView, area: Rect) -> Seq<DrawView> {
    match viewport_message(v, area) {
        Some(d) => seq![d],
        None => {
            let (text, bar) = viewport_areas(area);
            logs_scene(v.stacks.selected_lines(), v.stacks.offset() as int, text, bar)
        },
    }
}

/// The state after log text was drawn: the viewport's height and the
/// scrollbar's track are known.
pub open spec fn logs_drawn(v: TuiView, text: Rect, bar: Option<Rect>) -> TuiView {
    let rows = page(text.height as usize) as usize;
    TuiView {
        layout: Layout { viewport_height: rows, ..v.layout },
        hits: match bar {
            Some(b) => HitsView {
                scrollbar_hit: Some(
                    ScrollbarHit {
                        x: b.x,
                        y: b.y,
                        h: b.height,
                        content_len: v.stacks.selected_lines().len() as usize,
                        viewport: rows,
                    },
                ),
                ..v.hits
            },
            None => v.hits,
        },
        ..v
    }
}

/// The state after the viewport was drawn.
pub open spec fn viewport_drawn(v: TuiView, area: Rect) -> TuiView {
    match viewport_message(v, area) {
        Some(_) => v,
        None => {
            let (text, bar) = viewport_areas(area);
            logs_drawn(v, text, bar)
        },
    }
}

fn explain(state: &TuiState, area: Rect) -> (r: Draw)
    requires
        on_placeholder(state@),
    ensures
        viewport_message(state@, area) == Some(r@),
{
    let p = *state.palette();
    let text = state.placeholder_explanation();
    let raw = raw_texts(text.as_str());
    let ghost all = raw_lines(text@).map_values(|l: Seq<char>| seq![sp(l, plain())]);
    let mut out: Vec<Line> = Vec::new();
    assert(views(out@) =~= all.take(0));
    let mut i: usize = 0;
    while i < raw.len()
        invariant
            i <= raw.len(),
            texts(raw@) == raw_lines(text@),
            all == raw_lines(text@).map_values(|l: Seq<char>| seq![sp(l, plain())]),
            views(out@) == all.take(i as int),
        decreases raw.len() - i,
    {
        let ghost before = views(out@);
        assert(raw_lines(text@)[i as int] == raw@[i as int]@);
        out.push(one(raw[i].as_str(), plain()));
        assert(views(out@) =~= before.push(all[i as int]));
        i = i + 1;
        assert(views(out@) =~= all.take(i as int));
    }
    assert(all.take(i as int) =~= all);
    Draw::Text { area, lines: out, flow: Flow::Wrapped, fill: italic(p.overlay0) }
}

fn message(state: &TuiState, area: Rect) -> (r: Option<Draw>)
    requires
        state.wf(),
    ensures
        match r {
            Some(d) => viewport_message(state@, area) == Some(d@),
            None => viewport_message(state@, area) is None && state@.stacks.selected() is Some,
        },
{
    if state.selected_tab_is_placeholder() {
        return Some(explain(state, area));
    }
    match state.selected_service() {
        None => Some(
            draw_line(area, one("no service selected", slanted(Ink::DarkGray)), plain()),
        ),
        Some(s) => {
            if state.service_logs(s.name.as_str()).len() > 0 {
                return None;
            }
            let text = match s.state {
                ServiceState::Stopped => "stopped — press S to start",
                ServiceState::Starting => "starting…",
                _ => "no output yet",
            };
            Some(draw_line(area, one(text, slanted(Ink::DarkGray)), plain()))
        },
    }
}

fn split_viewport(area: Rect) -> (r: (Rect, Option<Rect>))
    requires
        area.fits(),
    ensures
        r == viewport_areas(area),
        r.0.within(area),
{
    if area.width >= 5 {
        let (text, bar) = split_columns(area);
        (text, Some(bar))
    } else if area.width >= 3 {
        let (text, bar) = split_tail(area, Axis::Across, 0, 1);
        (text, Some(bar))
    } else {
        (area, None)
    }
}

/// Draws the logs of the selected service into `text`, and their scrollbar into
/// `bar`. The scrollbar counts scroll steps, so that it disappears when
/// everything fits.
pub fn render_logs(state: &mut TuiState, text: Rect, bar: Option<Rect>) -> (r: Vec<Draw>)
    requires
        old(state).wf(),
        text.fits(),
        old(state)@.stacks.selected() is Some,
    ensures
        final(state).wf(),
        final(state)@ == logs_drawn(old(state)@, text, bar),
        views(r@) == logs_scene(
            old(state)@.stacks.selected_lines(),
            old(state)@.stacks.offset() as int,
            text,
            bar,
        ),
{
    let ghost v = state@;
    let ghost all = v.stacks.selected_lines();
    let rows: usize = if text.height == 0 {
        1
    } else {
        text.height as usize
    };
    state.set_viewport_height(rows);
    let offset: usize = state.log_scroll_offset();
    let mut r: Vec<Draw> = Vec::new();
    let mut content: usize = 0;
    let mut start: usize = 0;
    match state.selected_service() {
        Some(s) => {
            let logs = state.service_logs(s.name.as_str());
            assert(texts(logs@) == all);
            content = logs.len();
            let end: usize = content.saturating_sub(offset);
            start = end.saturating_sub(rows);
            let styled = style_logs(logs, start, end);
            r.push(Draw::Logs { area: text, lines: styled });
        },
        None => {},
    }
    let ghost head = views(r@);
    assert(head =~= seq![
        DrawView::Logs {
            area: text,
            lines: styled_logs(window(all, offset as int, rows as int)),
        },
    ]);
    match bar {
        Some(b) => {
            state.set_scrollbar_hit(b.x, b.y, b.height, content, rows);
            let last: usize = content.saturating_sub(rows);
            let position: usize = if start < last {
                start
            } else {
                last
            };
            r.push(Draw::Scrollbar { area: b, steps: last, position, paused: offset > 0 });
        },
        None => {},
    }
    if offset > 0 {
        let mark = joined3(" PAUSED · ", number(offset as u64).as_str(), " behind · G to follow ");
        let w: usize = columns(mark.as_str());
        if w <= text.width as usize {
            let area = Rect {
                x: text.x + (text.width - w as u16),
                y: text.y,
                width: w as u16,
                height: 1,
            };
            r.push(draw_line(area, one(mark.as_str(), badge(Ink::Yellow)), plain()));
        }
    }
    assert(views(r@) =~= logs_scene(all, offset as int, text, bar));
    r
}

/// Draws the log viewport. The placeholder tab explains why the worktree owns no
/// services instead.
pub fn render_log_viewport(area: Rect, state: &mut TuiState) -> (r: Vec<Draw>)
    requires
        area.fits(),
        old(state).wf(),
    ensures
        final(state).wf(),
        final(state)@ == viewport_drawn(old(state)@, area),
        views(r@) == viewport_scene(old(state)@, area),
{
    match message(state, area) {
        Some(d) => {
            let ghost v = d@;
            let mut r: Vec<Draw> = Vec::new();
            r.push(d);
            assert(views(r@) =~= seq![v]);
            r
        },
        None => {
            let (text, bar) = split_viewport(area);
            render_logs(state, text, bar)
        },
    }
}

/// The line below the viewport: the service, its state, and what is known of
/// its process.
pub open spec fn meta_line(p: Palette, s: ServiceView) -> LineView {
    seq![
        sp(" "@ + s.name, bold(p.text)),
        sp("  "@, plain()),
        sp(label_of(s.state), bold(color_of(p, s.state))),
    ] + (match s.pid {
        Some(pid) => seq![
            sp("  · pid "@, inked(p.overlay0)),
            sp(decimal(pid as nat), plain()),
        ],
        None => Seq::empty(),
    }) + (match s.port {
        Some(port) => seq![
            sp("  · port "@, inked(p.overlay0)),
            sp(decimal(port as nat), plain()),
        ],
        None => Seq::empty(),
    }) + (if s.restart_count > 0 {
        seq![
            sp("  · restarts "@, inked(p.overlay0)),
            sp(decimal(s.restart_count as nat), inked(p.yellow)),
        ]
    } else {
        Seq::empty()
    })
}

/// The line below the viewport; none without a selected service.
pub open spec fn meta_scene(v: TuiView, area: Rect) -> Seq<DrawView> {
    match v.stacks.selected() {
        Some(s) => seq![line_at(area, meta_line(v.session.palette, s), plain())],
        None => Seq::empty(),
    }
}

fn meta_text(p: &Palette, s: &ServiceSnapshot) -> (r: Line)
    ensures
        r@ == meta_line(*p, s@),
{
    let mut spans: Vec<Span> = Vec::new();
    spans.push(span_of(joined2(" ", s.name.as_str()), bold(p.text)));
    spans.push(span("  ", plain()));
    spans.push(span(state_label(&s.state), bold(service_color(p, &s.state))));
    match s.pid {
        Some(pid) => {
            spans.push(span("  · pid ", inked(p.overlay0)));
            spans.push(span_of(number(pid as u64), plain()));
        },
        None => {},
    }
    match s.port {
        Some(port) => {
            spans.push(span("  · port ", inked(p.overlay0)));
            spans.push(span_of(number(port as u64), plain()));
        },
        None => {},
    }
    if s.restart_count > 0 {
        spans.push(span("  · restarts ", inked(p.overlay0)));
        spans.push(span_of(number(s.restart_count as u64), inked(p.yellow)));
    }
    assert(views(spans@) =~= meta_line(*p, s@));
    line(spans)
}

/// Draws the line below the viewport.
pub fn render_service_meta(area: Rect, state: &TuiState) -> (r: Vec<Draw>)
    ensures
        views(r@) == meta_scene(state@, area),
{
    let mut r: Vec<Draw> = Vec::new();
    match state.selected_service() {
        Some(s) => r.push(draw_line(area, meta_text(state.palette(), s), plain())),
        None => {},
    }
    assert(views(r@) =~= meta_scene(state@, area));
    r
}

/// The header of copy mode.
pub open spec fn copy_header(name: Option<Seq<char>>) -> LineView {
    seq![
        sp(" COPY MODE "@, badge(Ink::Cyan)),
        sp(
            " "@ + (match name {
                Some(n) => n,
                None => "logs"@,
            }) + " "@,
            coloured(Ink::White),
        ),
        sp("— select text with mouse "@, coloured(Ink::DarkGray)),
    ]
}

/// The footer of copy mode.
pub open spec fn copy_footer() -> LineView {
    seq![
        sp(" y "@, strong(Ink::Cyan)),
        sp("copy visible  "@, coloured(Ink::DarkGray)),
        sp("Y "@, strong(Ink::Cyan)),
        sp("copy all  "@, coloured(Ink::DarkGray)),
        sp("jk "@, strong(Ink::Cyan)),
        sp("scroll  "@, coloured(Ink::DarkGray)),
        sp("g/G "@, strong(Ink::Cyan)),
        sp("top/bottom  "@, coloured(Ink::DarkGray)),
        sp("Esc "@, strong(Ink::Cyan)),
        sp("exit"@, coloured(Ink::DarkGray)),
    ]
}

/// Copy mode: nothing but the log text, so that the terminal's own selection
/// works. The text shown is that of a viewport of the pane's height.
pub open spec fn copy_scene(v: TuiView, areas: (Rect, Rect, Rect)) -> Seq<DrawView> {
    seq![
        line_at(areas.0, copy_header(selected_name(v)), plain()),
        line_at(areas.2, copy_footer(), plain()),
    ] + (match v.stacks.selected() {
        Some(_) => seq![
            DrawView::Logs {
                area: areas.1,
                lines: styled_logs(
                    window(
                        v.stacks.selected_lines(),
                        v.stacks.offset() as int,
                        areas.1.height as int,
                    ),
                ),
            },
        ],
        None => Seq::empty(),
    })
}

/// The state after copy mode was drawn.
pub open spec fn copy_drawn(v: TuiView, areas: (Rect, Rect, Rect)) -> TuiView {
    if v.stacks.selected() is Some {
        TuiView {
            layout: Layout {
                viewport_height: page(areas.1.height as usize) as usize,
                ..v.layout
            },
            ..v
        }
    } else {
        v
    }
}

fn copy_footer_text() -> (r: Line)
    ensures
        r@ == copy_footer(),
{
    let key = strong(Ink::Cyan);
    let dim = coloured(Ink::DarkGray);
    let mut spans: Vec<Span> = Vec::new();
    spans.push(span(" y ", key));
    spans.push(span("copy visible  ", dim));
    spans.push(span("Y ", key));
    spans.push(span("copy all  ", dim));
    spans.push(span("jk ", key));
    spans.push(span("scroll  ", dim));
    spans.push(span("g/G ", key));
    spans.push(span("top/bottom  ", dim));
    spans.push(span("Esc ", key));
    spans.push(span("exit", dim));
    assert(views(spans@) =~= copy_footer());
    line(spans)
}

/// The selected service's name.
pub open spec fn selected_name(v: TuiView) -> Option<Seq<char>> {
    match v.stacks.selected() {
        Some(s) => Some(s.name),
        None => None,
    }
}

fn copy_header_text(state: &TuiState) -> (r: Line)
    ensures
        r@ == copy_header(selected_name(state@)),
{
    let name = match state.selected_service() {
        Some(s) => s.name.as_str(),
        None => "logs",
    };
    let title = joined3(" ", name, " ");
    three(
        span(" COPY MODE ", badge(Ink::Cyan)),
        span_of(title, coloured(Ink::White)),
        span("— select text with mouse ", coloured(Ink::DarkGray)),
    )
}

/// Draws copy mode into its header, text and footer.
pub fn render_copy_mode(header: Rect, text: Rect, footer: Rect, state: &mut TuiState) -> (r: Vec<
    Draw,
>)
    requires
        old(state).wf(),
    ensures
        final(state).wf(),
        final(state)@ == copy_drawn(old(state)@, (header, text, footer)),
        views(r@) == copy_scene(old(state)@, (header, text, footer)),
{
    let ghost v = state@;
    let mut r: Vec<Draw> = Vec::new();
    let name: Option<String> = match state.selected_service() {
        Some(s) => Some(s.name.clone()),
        None => None,
    };
    r.push(draw_line(header, copy_header_text(state), plain()));
    r.push(draw_line(footer, copy_footer_text(), plain()));
    let ghost head = views(r@);
    let ghost areas = (header, text, footer);
    assert(head =~= copy_scene(v, areas).take(2));
    match &name {
        Some(n) => {
            let rows: usize = text.height as usize;
            state.set_viewport_height(rows);
            let offset: usize = state.log_scroll_offset();
            let logs = state.service_logs(n.as_str());
            assert(texts(logs@) == v.stacks.selected_lines());
            let end: usize = logs.len().saturating_sub(offset);
            let start: usize = end.saturating_sub(rows);
            let styled = style_logs(logs, start, end);
            r.push(Draw::Logs { area: text, lines: styled });
            assert(views(r@) =~= head.push(copy_scene(v, areas)[2]));
        },
        None => {},
    }
    assert(views(r@) =~= copy_scene(v, areas));
    r
}

/// The header of zoom.
pub open spec fn zoom_header(p: Palette, s: Option<ServiceView>) -> LineView {
    match s {
        Some(s) => seq![
            sp(" ⛶ zoom "@, chip(p.panel_bg, p.mauve)),
            sp(" "@ + s.name + " "@, bold(p.text)),
            sp(label_of(s.state), bold(color_of(p, s.state))),
        ],
        None => seq![
            sp(" ⛶ zoom "@, chip(p.panel_bg, p.mauve)),
            sp(" "@ + "logs"@ + " "@, bold(p.text)),
        ],
    }
}

/// The footer of zoom.
pub open spec fn zoom_footer(p: Palette) -> LineView {
    seq![
        sp(" jk "@, bold(p.accent)),
        sp("scroll  "@, inked(p.overlay0)),
        sp("g/G "@, bold(p.accent)),
        sp("top/tail  "@, inked(p.overlay0)),
        sp("hl "@, bold(p.accent)),
        sp("service  "@, inked(p.overlay0)),
        sp("z/Esc "@, bold(p.accent)),
        sp("exit zoom"@, inked(p.overlay0)),
    ]
}

/// Zoom: the selected service's logs fill the screen, with the live tail, the
/// scrollback and the scrollbar kept.
pub open spec fn zoom_scene(v: TuiView, areas: (Rect, Rect, Rect)) -> Seq<DrawView> {
    let p = v.session.palette;
    (seq![line_at(areas.0, zoom_header(p, v.stacks.selected()), plain())] + viewport_scene(
        v,
        areas.1,
    )).push(line_at(areas.2, zoom_footer(p), plain()))
}

fn zoom_footer_text(p: &Palette) -> (r: Line)
    ensures
        r@ == zoom_footer(*p),
{
    let key = bold(p.accent);
    let dim = inked(p.overlay0);
    let mut spans: Vec<Span> = Vec::new();
    spans.push(span(" jk ", key));
    spans.push(span("scroll  ", dim));
    spans.push(span("g/G ", key));
    spans.push(span("top/tail  ", dim));
    spans.push(span("hl ", key));
    spans.push(span("service  ", dim));
    spans.push(span("z/Esc ", key));
    spans.push(span("exit zoom", dim));
    assert(views(spans@) =~= zoom_footer(*p));
    line(spans)
}

fn zoom_header_text(p: &Palette, state: &TuiState) -> (r: Line)
    ensures
        r@ == zoom_header(*p, state@.stacks.selected()),
{
    let mut spans: Vec<Span> = Vec::new();
    spans.push(span(" ⛶ zoom ", chip(p.panel_bg, p.mauve)));
    match state.selected_service() {
        Some(s) => {
            spans.push(span_of(joined3(" ", s.name.as_str(), " "), bold(p.text)));
            spans.push(span(state_label(&s.state), bold(service_color(p, &s.state))));
        },
        None => spans.push(span_of(joined3(" ", "logs", " "), bold(p.text))),
    }
    assert(views(spans@) =~= zoom_header(*p, state@.stacks.selected()));
    line(spans)
}

/// Draws zoom into its header, text and footer.
pub fn render_zoom(header: Rect, text: Rect, footer: Rect, state: &mut TuiState) -> (r: Vec<
    Draw,
>)
    requires
        text.fits(),
        old(state).wf(),
    ensures
        final(state).wf(),
        final(state)@ == viewport_drawn(old(state)@, text),
        views(r@) == zoom_scene(old(state)@, (header, text, footer)),
{
    let ghost v = state@;
    let p = *state.palette();
    let mut r: Vec<Draw> = Vec::new();
    r.push(draw_line(header, zoom_header_text(&p, state), plain()));
    let ghost head = views(r@);
    let mut logs = render_log_viewport(text, state);
    r.append(&mut logs);
    assert(views(r@) =~= head + viewport_scene(v, text));
    r.push(draw_line(footer, zoom_footer_text(&p), plain()));
    assert(views(r@) =~= zoom_scene(v, (header, text, footer)));
    r
}

} // verus!
