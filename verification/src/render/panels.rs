//! The settings overlay, the stack-info modal and the stopped screen.
use vstd::prelude::*;
use vstd::utf8::encode_utf8;

use crate::lists::views;
use crate::state::settings::{setting, settings_table, DefView, SettingControl, SettingDef};
use crate::state::{SettingsState, SettingsView, ToastView, TuiState, SETTING_COUNT};
use crate::text::same;
use crate::theme::Palette;

use super::dialogs::{frame, framed};
use super::layout::{at_most, inner, inside, less, modal, modal_in};
use super::notices::{render_toasts, toasts_scene};
use super::paint::{
    blank, bold, chip, columns, draw_line, filled, four, gap, gap_text, inked, joined2, joined3,
    line, line_at, one, pad, padded, plain, sp, span, span_of, three, two, Draw, DrawView, Flow,
    Ink, Line, LineView, Rect, Span, SpanView, Style,
};

verus! {

/// How a setting's value is shown.
pub open spec fn control_spans(p: Palette, def: DefView, value: Seq<char>) -> Seq<SpanView> {
    if def.options is Some {
        seq![
            sp("‹ "@, inked(p.overlay0)),
            sp(value, bold(p.accent)),
            sp(" ›"@, inked(p.overlay0)),
        ]
    } else if value == "true"@ {
        seq![sp("● on"@, inked(p.green))]
    } else {
        seq![sp("○ off"@, inked(p.overlay0))]
    }
}

/// The columns that a setting's value takes.
pub open spec fn control_columns(def: DefView, value: Seq<char>) -> int {
    if def.options is Some {
        4 + value.len() as int
    } else if value == "true"@ {
        4
    } else {
        5
    }
}

/// A setting's first row: its label at the left, its value at the right.
pub open spec fn setting_line(
    p: Palette,
    def: DefView,
    value: Seq<char>,
    selected: bool,
    width: int,
) -> LineView {
    seq![
        sp(
            " "@ + def.label,
            if selected {
                bold(p.text)
            } else {
                inked(p.subtext0)
            },
        ),
        sp(gap(width, 1 + def.label.len() + control_columns(def, value) + 1), plain()),
    ] + control_spans(p, def, value)
}

pub open spec fn setting_fill(p: Palette, selected: bool) -> Style {
    if selected {
        filled(p.surface0)
    } else {
        plain()
    }
}

/// The two rows of the `i`-th setting.
pub open spec fn setting_rows(p: Palette, s: SettingsView, room: Rect, i: int) -> Seq<DrawView> {
    let selected = i == s.cursor;
    seq![
        line_at(
            room.row(room.y + 2 * i),
            setting_line(p, setting(i), s.values[i], selected, room.width as int),
            setting_fill(p, selected),
        ),
        line_at(
            room.row(room.y + 2 * i + 1),
            seq![sp("   "@ + setting(i).desc, inked(p.overlay0))],
            setting_fill(p, selected),
        ),
    ]
}

/// The rows of the first `n` settings.
pub open spec fn settings_rows(p: Palette, s: SettingsView, room: Rect, n: nat) -> Seq<DrawView>
    decreases n,
{
    if n == 0 {
        Seq::empty()
    } else {
        settings_rows(p, s, room, (n - 1) as nat) + setting_rows(p, s, room, n - 1)
    }
}

/// The keys of the settings overlay.
pub open spec fn settings_hint(p: Palette) -> LineView {
    seq![
        sp(" ↑↓ "@, bold(p.accent)),
        sp("move  "@, inked(p.overlay0)),
        sp("←→/space "@, bold(p.accent)),
        sp("change  "@, inked(p.overlay0)),
        sp("esc "@, bold(p.accent)),
        sp("close"@, inked(p.overlay0)),
    ]
}

/// The settings overlay: two rows for each setting, as many as there is room
/// for.
pub open spec fn settings_scene(area: Rect, p: Palette, s: SettingsView) -> Seq<DrawView> {
    let m = modal_in(area, 60, 2 * SETTING_COUNT + 5, 4, 2);
    let head = framed(
        m,
        " settings "@,
        bold(p.text),
        Ink::Theme(p.accent),
        Some(Ink::Theme(p.panel_bg)),
    );
    let room = inside(m);
    if room.height < 3 {
        head
    } else {
        (head + settings_rows(
            p,
            s,
            room,
            at_most(SETTING_COUNT as int, room.height as int / 2) as nat,
        )).push(line_at(room.row(room.y + room.height - 1), settings_hint(p), plain()))
    }
}

fn setting_text(p: &Palette, def: &SettingDef, value: &str, selected: bool, width: u16) -> (r: Line)
    ensures
        r@ == setting_line(*p, def@, value@, selected, width as int),
{
    let mut spans: Vec<Span> = Vec::new();
    let choice = matches!(def.control, SettingControl::Choice(_));
    let on = same(value, "true");
    let shown: usize = if choice {
        columns(value).saturating_add(4)
    } else if on {
        4
    } else {
        5
    };
    let used: usize = columns(def.label).saturating_add(shown).saturating_add(2);
    let style = if selected {
        bold(p.text)
    } else {
        inked(p.subtext0)
    };
    spans.push(span_of(joined2(" ", def.label), style));
    spans.push(span_of(gap_text(width as usize, used), plain()));
    if choice {
        spans.push(span("‹ ", inked(p.overlay0)));
        spans.push(span(value, bold(p.accent)));
        spans.push(span(" ›", inked(p.overlay0)));
    } else if on {
        spans.push(span("● on", inked(p.green)));
    } else {
        spans.push(span("○ off", inked(p.overlay0)));
    }
    assert(less(width as int, used as int) == less(
        width as int,
        1 + def@.label.len() + control_columns(def@, value@) + 1,
    ));
    assert(views(spans@) =~= setting_line(*p, def@, value@, selected, width as int));
    line(spans)
}

/// Draws the settings overlay: the editable keys with their current values.
pub fn render_settings_overlay(area: Rect, p: &Palette, s: &SettingsState) -> (r: Vec<Draw>)
    requires
        area.fits(),
        s@.values.len() == SETTING_COUNT,
    ensures
        views(r@) == settings_scene(area, *p, s@),
{
    let m = modal(area, 60, 2 * SETTING_COUNT as u16 + 5, 4, 2);
    let room = inner(m);
    let mut r = frame(
        m,
        " settings ",
        bold(p.text),
        Ink::Theme(p.accent),
        Some(Ink::Theme(p.panel_bg)),
    );
    let ghost head = views(r@);
    if room.height < 3 {
        return r;
    }
    let table = settings_table();
    let fitting: usize = room.height as usize / 2;
    let shown: usize = if SETTING_COUNT < fitting {
        SETTING_COUNT
    } else {
        fitting
    };
    assert(views(r@) =~= head + settings_rows(*p, s@, room, 0));
    let mut i: usize = 0;
    while i < shown
        invariant
            i <= shown <= SETTING_COUNT,
            2 * shown <= room.height,
            room.fits(),
            table@.len() == SETTING_COUNT,
            forall|k: int| 0 <= k < table@.len() ==> (#[trigger] table@[k])@ == setting(k),
            s@.values.len() == SETTING_COUNT,
            views(r@) == head + settings_rows(*p, s@, room, i as nat),
        decreases shown - i,
    {
        let ghost before = views(r@);
        let selected = i == s.cursor;
        let fill = if selected {
            filled(p.surface0)
        } else {
            plain()
        };
        let y: u16 = room.y + 2 * i as u16;
        assert(s@.values[i as int] == s.values@[i as int]@);
        assert(table@[i as int]@ == setting(i as int));
        let text = setting_text(p, &table[i], s.values[i].as_str(), selected, room.width);
        r.push(draw_line(room.row_at(y), text, fill));
        let desc = one(joined2("   ", table[i].desc).as_str(), inked(p.overlay0));
        r.push(draw_line(room.row_at(y + 1), desc, fill));
        assert(views(r@) =~= before + setting_rows(*p, s@, room, i as int));
        i = i + 1;
        assert(views(r@) =~= head + settings_rows(*p, s@, room, i as nat));
    }
    let ghost before = views(r@);
    let mut hint: Vec<Span> = Vec::new();
    hint.push(span(" ↑↓ ", bold(p.accent)));
    hint.push(span("move  ", inked(p.overlay0)));
    hint.push(span("←→/space ", bold(p.accent)));
    hint.push(span("change  ", inked(p.overlay0)));
    hint.push(span("esc ", bold(p.accent)));
    hint.push(span("close", inked(p.overlay0)));
    assert(views(hint@) =~= settings_hint(*p));
    r.push(draw_line(room.row_at(room.y + room.height - 1), line(hint), plain()));
    assert(views(r@) =~= before.push(
        line_at(room.row(room.y + room.height - 1), settings_hint(*p), plain()),
    ));
    r
}

/// One field of the stack-info modal.
#[derive(Debug, PartialEq, Eq)]
pub struct InfoField {
    pub label: String,
    pub value: String,
    /// The cursor stops here, and the value can be copied.
    pub copyable: bool,
}

#[verifier::ext_equal]
pub ghost struct FieldView {
    pub label: Seq<char>,
    pub value: Seq<char>,
    pub copyable: bool,
}

impl View for InfoField {
    type V = FieldView;

    open spec fn view(&self) -> FieldView {
        FieldView { label: self.label@, value: self.value@, copyable: self.copyable }
    }
}

/// The stack-info modal: the focused stack's identity and status, one field
/// per row.
#[derive(Debug, PartialEq, Eq)]
pub struct StackInfo {
    pub title: String,
    pub fields: Vec<InfoField>,
    pub cursor: usize,
}

#[verifier::ext_equal]
pub ghost struct StackInfoView {
    pub title: Seq<char>,
    pub fields: Seq<FieldView>,
    pub cursor: usize,
}

impl View for StackInfo {
    type V = StackInfoView;

    open spec fn view(&self) -> StackInfoView {
        StackInfoView { title: self.title@, fields: views(self.fields@), cursor: self.cursor }
    }
}

/// The longest label, in bytes.
pub open spec fn label_columns(fields: Seq<FieldView>) -> nat
    decreases fields.len(),
{
    if fields.len() == 0 {
        0
    } else {
        let rest = label_columns(fields.drop_last());
        let last = encode_utf8(fields.last().label).len();
        if rest < last {
            last
        } else {
            rest
        }
    }
}

/// The widest value.
pub open spec fn value_columns(fields: Seq<FieldView>) -> nat
    decreases fields.len(),
{
    if fields.len() == 0 {
        0
    } else {
        let rest = value_columns(fields.drop_last());
        let last = fields.last().value.len();
        if rest < last {
            last
        } else {
            rest
        }
    }
}

/// The columns that the modal's content asks for: its widest field or its
/// footer.
pub open spec fn info_columns(fields: Seq<FieldView>) -> int {
    let widest = 5 + label_columns(fields) + value_columns(fields);
    if fields.len() > 0 && widest > 46 {
        widest as int
    } else {
        46
    }
}

/// One row of the stack-info modal.
pub open spec fn info_line(p: Palette, f: FieldView, selected: bool, labels: int) -> LineView {
    seq![
        sp(
            if selected {
                "▸ "@
            } else {
                "  "@
            },
            inked(p.accent),
        ),
        sp(
            padded(f.label, labels),
            if f.copyable {
                inked(p.subtext0)
            } else {
                inked(p.overlay0)
            },
        ),
        sp("  "@, plain()),
        sp(
            f.value,
            if selected {
                bold(p.text)
            } else if f.copyable {
                inked(p.text)
            } else {
                inked(p.overlay0)
            },
        ),
    ]
}

/// The `i`-th row of the stack-info modal.
pub open spec fn info_draw(p: Palette, info: StackInfoView, room: Rect, i: int) -> DrawView {
    let f = info.fields[i];
    let selected = f.copyable && i == info.cursor;
    line_at(
        room.row(room.y + i),
        info_line(p, f, selected, label_columns(info.fields) as int),
        setting_fill(p, selected),
    )
}

/// The keys of the stack-info modal.
pub open spec fn info_hint(p: Palette) -> LineView {
    seq![
        sp(" ↑↓ "@, bold(p.accent)),
        sp("move  "@, inked(p.overlay0)),
        sp("c/⏎ "@, bold(p.accent)),
        sp("copy  "@, inked(p.overlay0)),
        sp("b/w "@, bold(p.accent)),
        sp("branch/path  "@, inked(p.overlay0)),
        sp("esc "@, bold(p.accent)),
        sp("close"@, inked(p.overlay0)),
    ]
}

/// The stack-info modal, sized to its content.
pub open spec fn info_scene(area: Rect, p: Palette, info: StackInfoView) -> Seq<DrawView> {
    let m = modal_in(
        area,
        info_columns(info.fields) + 2,
        info.fields.len() as int + 4,
        4,
        2,
    );
    let head = framed(
        m,
        " "@ + info.title + " "@,
        bold(p.text),
        Ink::Theme(p.accent),
        Some(Ink::Theme(p.panel_bg)),
    );
    let room = inside(m);
    if room.height < 2 {
        head
    } else {
        (head + Seq::new(
            at_most(info.fields.len() as int, room.height - 1) as nat,
            |i: int| info_draw(p, info, room, i),
        )).push(line_at(room.row(room.y + room.height - 1), info_hint(p), plain()))
    }
}

/// The modal can be sized: the frame is wide enough for its least width, and
/// its content fits screen coordinates.
pub open spec fn info_fits(area: Rect, info: StackInfoView) -> bool {
    area.width >= 32 && info_columns(info.fields) + 2 <= u16::MAX && info.fields.len() + 4
        <= u16::MAX
}

fn measure(fields: &Vec<InfoField>) -> (r: (usize, usize))
    ensures
        r.0 == label_columns(views(fields@)),
        r.1 == value_columns(views(fields@)),
{
    let ghost all = views(fields@);
    let mut labels: usize = 0;
    let mut values: usize = 0;
    let mut i: usize = 0;
    while i < fields.len()
        invariant
            i <= fields.len(),
            all == views(fields@),
            labels == label_columns(all.take(i as int)),
            values == value_columns(all.take(i as int)),
        decreases fields.len() - i,
    {
        assert(all.take(i + 1).drop_last() =~= all.take(i as int));
        assert(all.take(i + 1).last() == fields@[i as int]@);
        let l: usize = fields[i].label.as_str().as_bytes().len();
        let v: usize = columns(fields[i].value.as_str());
        if labels < l {
            labels = l;
        }
        if values < v {
            values = v;
        }
        i = i + 1;
    }
    assert(all.take(i as int) =~= all);
    (labels, values)
}

fn info_text(p: &Palette, f: &InfoField, selected: bool, labels: usize) -> (r: Line)
    ensures
        r@ == info_line(*p, f@, selected, labels as int),
{
    let marker = if selected {
        "▸ "
    } else {
        "  "
    };
    let label_style = if f.copyable {
        inked(p.subtext0)
    } else {
        inked(p.overlay0)
    };
    let value_style = if selected {
        bold(p.text)
    } else if f.copyable {
        inked(p.text)
    } else {
        inked(p.overlay0)
    };
    four(
        span(marker, inked(p.accent)),
        span_of(pad(f.label.as_str(), labels), label_style),
        span("  ", plain()),
        span(f.value.as_str(), value_style),
    )
}

/// Draws the stack-info modal. Copyable rows are selectable; the others are
/// dimmer.
pub fn render_stack_info_overlay(area: Rect, p: &Palette, info: &StackInfo) -> (r: Vec<Draw>)
    requires
        area.fits(),
        info_fits(area, info@),
    ensures
        views(r@) == info_scene(area, *p, info@),
{
    let ghost v = info@;
    let (labels, values) = measure(&info.fields);
    let count: usize = info.fields.len();
    assert(count == v.fields.len());
    let mut wide: usize = 46;
    if count > 0 {
        let both: usize = labels.saturating_add(values).saturating_add(5);
        if both > 46 {
            wide = both;
        }
    }
    assert(wide == info_columns(v.fields));
    let m = modal(area, wide as u16 + 2, count as u16 + 4, 4, 2);
    let room = inner(m);
    let mut r = frame(
        m,
        joined3(" ", info.title.as_str(), " ").as_str(),
        bold(p.text),
        Ink::Theme(p.accent),
        Some(Ink::Theme(p.panel_bg)),
    );
    let ghost head = views(r@);
    if room.height < 2 {
        return r;
    }
    let fitting: usize = room.height as usize - 1;
    let shown: usize = if count < fitting {
        count
    } else {
        fitting
    };
    let ghost all = Seq::new(shown as nat, |i: int| info_draw(*p, v, room, i));
    assert(views(r@) =~= head + all.take(0));
    let mut i: usize = 0;
    while i < shown
        invariant
            i <= shown <= count == v.fields.len(),
            v == info@,
            shown <= room.height - 1,
            room.fits(),
            labels == label_columns(v.fields),
            all == Seq::new(shown as nat, |i: int| info_draw(*p, v, room, i)),
            views(r@) == head + all.take(i as int),
        decreases shown - i,
    {
        let ghost before = views(r@);
        assert(v.fields[i as int] == info.fields@[i as int]@);
        let selected = info.fields[i].copyable && i == info.cursor;
        let fill = if selected {
            filled(p.surface0)
        } else {
            plain()
        };
        let text = info_text(p, &info.fields[i], selected, labels);
        r.push(draw_line(room.row_at(room.y + i as u16), text, fill));
        assert(views(r@) =~= before.push(all[i as int]));
        i = i + 1;
        assert(views(r@) =~= head + all.take(i as int));
    }
    assert(all.take(i as int) =~= all);
    let ghost before = views(r@);
    let mut hint: Vec<Span> = Vec::new();
    hint.push(span(" ↑↓ ", bold(p.accent)));
    hint.push(span("move  ", inked(p.overlay0)));
    hint.push(span("c/⏎ ", bold(p.accent)));
    hint.push(span("copy  ", inked(p.overlay0)));
    hint.push(span("b/w ", bold(p.accent)));
    hint.push(span("branch/path  ", inked(p.overlay0)));
    hint.push(span("esc ", bold(p.accent)));
    hint.push(span("close", inked(p.overlay0)));
    assert(views(hint@) =~= info_hint(*p));
    r.push(draw_line(room.row_at(room.y + room.height - 1), line(hint), plain()));
    assert(views(r@) =~= before.push(
        line_at(room.row(room.y + room.height - 1), info_hint(*p), plain()),
    ));
    r
}

/// The repo as the stopped screen names it.
pub open spec fn stopped_name(repo: Option<Seq<char>>) -> Seq<char> {
    match repo {
        Some(r) => r,
        None => "This stack"@,
    }
}

/// What the stopped screen's card says.
pub open spec fn stopped_lines(p: Palette, repo: Option<Seq<char>>) -> Seq<LineView> {
    seq![
        Seq::empty(),
        seq![sp("╭─────╮"@, inked(p.mauve))],
        seq![sp("│  "@, inked(p.mauve)), sp("⏻"@, bold(p.accent)), sp("  │"@, inked(p.mauve))],
        seq![sp("╰─────╯"@, inked(p.mauve))],
        Seq::empty(),
        seq![sp("All services stopped"@, bold(p.text))],
        Seq::empty(),
        seq![
            sp(stopped_name(repo) + " was shut down via devme down."@, inked(p.overlay0)),
        ],
        seq![sp("The dashboard is still live."@, inked(p.overlay0))],
        Seq::empty(),
    ]
}

/// A key hint of the stopped screen. Labels are padded to one width so that
/// the keys share a left edge.
pub open spec fn stopped_hint(p: Palette, key: Seq<char>, label: Seq<char>) -> LineView {
    seq![
        sp(" "@ + key + " "@, chip(p.panel_bg, p.accent)),
        sp("  "@ + padded(label, 21), inked(p.subtext0)),
    ]
}

/// The hints as a block, centred as a unit below the text; as many as there is
/// room for.
pub open spec fn stopped_hint_area(room: Rect, i: int) -> Rect {
    Rect {
        x: (room.x + less(room.width as int, 26) / 2) as u16,
        y: (room.y + 10 + i) as u16,
        width: at_most(26, room.width as int) as u16,
        height: 1,
    }
}

pub open spec fn stopped_hints(p: Palette, room: Rect) -> Seq<DrawView> {
    let start = line_at(
        stopped_hint_area(room, 0),
        stopped_hint(p, "u"@, "start the stack again"@),
        plain(),
    );
    let quit = line_at(
        stopped_hint_area(room, 1),
        stopped_hint(p, "q"@, "quit devme"@),
        plain(),
    );
    if room.height <= 10 {
        Seq::empty()
    } else if room.height == 11 {
        seq![start]
    } else {
        seq![start, quit]
    }
}

/// The stopped screen: a card on a dim backdrop, with the toasts on top.
pub open spec fn stopped_scene(
    area: Rect,
    p: Palette,
    repo: Option<Seq<char>>,
    toasts: Seq<ToastView>,
) -> Seq<DrawView> {
    let card = modal_in(area, 54, 16, 4, 2);
    let head = seq![
        DrawView::Fill { area, style: filled(p.surface_dim) },
        DrawView::Clear(card),
        DrawView::Frame {
            area: card,
            title: Seq::empty(),
            border: Ink::Theme(p.surface1),
            background: Some(Ink::Theme(p.panel_bg)),
        },
    ];
    let room = inside(card);
    if room.height == 0 || room.width == 0 {
        head
    } else {
        head.push(
            DrawView::Text {
                area: Rect { height: at_most(10, room.height as int) as u16, ..room },
                lines: stopped_lines(p, repo),
                flow: Flow::CentredWrapped,
                fill: plain(),
            },
        ) + stopped_hints(p, room) + toasts_scene(area, p, toasts)
    }
}

fn stopped_text(p: &Palette, repo: Option<&str>) -> (r: Vec<Line>)
    ensures
        views(r@) == stopped_lines(*p, crate::text::opt_str(repo)),
{
    let name = match repo {
        Some(r) => r,
        None => "This stack",
    };
    let mut r: Vec<Line> = Vec::new();
    r.push(blank());
    r.push(one("╭─────╮", inked(p.mauve)));
    r.push(
        three(
            span("│  ", inked(p.mauve)),
            span("⏻", bold(p.accent)),
            span("  │", inked(p.mauve)),
        ),
    );
    r.push(one("╰─────╯", inked(p.mauve)));
    r.push(blank());
    r.push(one("All services stopped", bold(p.text)));
    r.push(blank());
    r.push(one(joined2(name, " was shut down via devme down.").as_str(), inked(p.overlay0)));
    r.push(one("The dashboard is still live.", inked(p.overlay0)));
    r.push(blank());
    assert(views(r@) =~~= stopped_lines(*p, crate::text::opt_str(repo)));
    r
}

fn hint_row(p: &Palette, key: &str, label: &str) -> (r: Line)
    ensures
        r@ == stopped_hint(*p, key@, label@),
{
    two(
        span_of(joined3(" ", key, " "), chip(p.panel_bg, p.accent)),
        span_of(joined2("  ", pad(label, 21).as_str()), inked(p.subtext0)),
    )
}

fn hint_rows(p: &Palette, room: Rect) -> (r: Vec<Draw>)
    requires
        room.fits(),
    ensures
        views(r@) == stopped_hints(*p, room),
{
    let mut r: Vec<Draw> = Vec::new();
    if room.height > 10 {
        let x: u16 = room.x + room.width.saturating_sub(26) / 2;
        let width: u16 = if room.width < 26 {
            room.width
        } else {
            26
        };
        let first = Rect { x, y: room.y + 10, width, height: 1 };
        r.push(draw_line(first, hint_row(p, "u", "start the stack again"), plain()));
        if room.height > 11 {
            let second = Rect { x, y: room.y + 11, width, height: 1 };
            r.push(draw_line(second, hint_row(p, "q", "quit devme"), plain()));
        }
    }
    assert(views(r@) =~= stopped_hints(*p, room));
    r
}

/// Draws the screen shown after every daemon has gone: the situation and the
/// two ways forward. Toasts still surface on top.
pub fn render_stopped(area: Rect, state: &TuiState) -> (r: Vec<Draw>)
    requires
        area.fits(),
    ensures
        views(r@) == stopped_scene(
            area,
            state@.session.palette,
            state@.session.stopped_repo,
            state@.notices.toasts,
        ),
{
    let p = *state.palette();
    let card = modal(area, 54, 16, 4, 2);
    let room = inner(card);
    let mut r: Vec<Draw> = Vec::new();
    r.push(Draw::Fill { area, style: filled(p.surface_dim) });
    r.push(Draw::Clear(card));
    r.push(
        Draw::Frame {
            area: card,
            title: blank(),
            border: Ink::Theme(p.surface1),
            background: Some(Ink::Theme(p.panel_bg)),
        },
    );
    let ghost scene = stopped_scene(
        area,
        p,
        state@.session.stopped_repo,
        state@.notices.toasts,
    );
    if room.height == 0 || room.width == 0 {
        assert(views(r@) =~= scene);
        return r;
    }
    assert(views(r@) =~= scene.take(3));
    let head = Rect {
        x: room.x,
        y: room.y,
        width: room.width,
        height: if room.height < 10 {
            room.height
        } else {
            10
        },
    };
    r.push(
        Draw::Text {
            area: head,
            lines: stopped_text(&p, state.stopped_repo()),
            flow: Flow::CentredWrapped,
            fill: plain(),
        },
    );
    assert(views(r@) =~= scene.take(4));
    let ghost text = views(r@);
    let mut hints = hint_rows(&p, room);
    r.append(&mut hints);
    assert(views(r@) =~= text + stopped_hints(p, room));
    let ghost with_hints = views(r@);
    let mut toasts = render_toasts(area, &p, state.toasts());
    r.append(&mut toasts);
    assert(views(r@) =~= with_hints + toasts_scene(area, p, state@.notices.toasts));
    assert(views(r@) =~= scene);
    r
}

} // verus!
