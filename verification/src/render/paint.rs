//! What a frame is made of: rectangles, styles, spans of text, and the list of
//! things to draw.
use vstd::prelude::*;

use crate::lists::views;
use crate::text::{chars_of, opt_text, repeat, repeated};
use crate::theme::Color;

use super::layout::less;

verus! {

/// A rectangle of screen cells.
#[derive(Debug, Clone, Copy, PartialEq, Eq, Structural)]
pub struct Rect {
    pub x: u16,
    pub y: u16,
    pub width: u16,
    pub height: u16,
}

impl Rect {
    /// Its right and bottom edges are screen coordinates.
    pub open spec fn fits(self) -> bool {
        self.x + self.width <= u16::MAX && self.y + self.height <= u16::MAX
    }

    /// It lies within `outer`.
    pub open spec fn within(self, outer: Rect) -> bool {
        outer.x <= self.x && outer.y <= self.y && self.x + self.width <= outer.x + outer.width
            && self.y + self.height <= outer.y + outer.height
    }

    /// One row of the rectangle's columns.
    pub open spec fn row(self, y: int) -> Rect {
        Rect { y: y as u16, height: 1, ..self }
    }

    pub(crate) fn row_at(self, y: u16) -> (r: Rect)
        ensures
            r == self.row(y as int),
    {
        Rect { x: self.x, y, width: self.width, height: 1 }
    }
}

/// A colour of the palette or one of the terminal's own.
#[derive(Debug, Clone, Copy, PartialEq, Eq, Structural)]
pub enum Ink {
    Theme(Color),
    Black,
    Red,
    Yellow,
    Cyan,
    Gray,
    DarkGray,
    White,
}

/// How text is drawn. What is left open is inherited.
#[derive(Debug, Clone, Copy, PartialEq, Eq, Structural)]
pub struct Style {
    pub fg: Option<Ink>,
    pub bg: Option<Ink>,
    pub bold: bool,
    pub italic: bool,
}

/// Nothing of its own.
#[verifier::allow_in_spec]
pub fn plain() -> Style
    returns
        (Style { fg: None, bg: None, bold: false, italic: false }),
{
    Style { fg: None, bg: None, bold: false, italic: false }
}

/// In a colour of the palette.
#[verifier::allow_in_spec]
pub fn inked(c: Color) -> Style
    returns
        (Style { fg: Some(Ink::Theme(c)), bg: None, bold: false, italic: false }),
{
    Style { fg: Some(Ink::Theme(c)), bg: None, bold: false, italic: false }
}

/// Bold, in a colour of the palette.
#[verifier::allow_in_spec]
pub fn bold(c: Color) -> Style
    returns
        (Style { fg: Some(Ink::Theme(c)), bg: None, bold: true, italic: false }),
{
    Style { fg: Some(Ink::Theme(c)), bg: None, bold: true, italic: false }
}

/// Italic, in a colour of the palette.
#[verifier::allow_in_spec]
pub fn italic(c: Color) -> Style
    returns
        (Style { fg: Some(Ink::Theme(c)), bg: None, bold: false, italic: true }),
{
    Style { fg: Some(Ink::Theme(c)), bg: None, bold: false, italic: true }
}

/// A background of the palette.
#[verifier::allow_in_spec]
pub fn filled(c: Color) -> Style
    returns
        (Style { fg: None, bg: Some(Ink::Theme(c)), bold: false, italic: false }),
{
    Style { fg: None, bg: Some(Ink::Theme(c)), bold: false, italic: false }
}

/// Bold, in one colour of the palette on another.
#[verifier::allow_in_spec]
pub fn chip(fg: Color, bg: Color) -> Style
    returns
        (Style { fg: Some(Ink::Theme(fg)), bg: Some(Ink::Theme(bg)), bold: true, italic: false }),
{
    Style { fg: Some(Ink::Theme(fg)), bg: Some(Ink::Theme(bg)), bold: true, italic: false }
}

/// In one of the terminal's own colours.
#[verifier::allow_in_spec]
pub fn coloured(ink: Ink) -> Style
    returns
        (Style { fg: Some(ink), bg: None, bold: false, italic: false }),
{
    Style { fg: Some(ink), bg: None, bold: false, italic: false }
}

/// Bold, in one of the terminal's own colours.
#[verifier::allow_in_spec]
pub fn strong(ink: Ink) -> Style
    returns
        (Style { fg: Some(ink), bg: None, bold: true, italic: false }),
{
    Style { fg: Some(ink), bg: None, bold: true, italic: false }
}

/// Italic, in one of the terminal's own colours.
#[verifier::allow_in_spec]
pub fn slanted(ink: Ink) -> Style
    returns
        (Style { fg: Some(ink), bg: None, bold: false, italic: true }),
{
    Style { fg: Some(ink), bg: None, bold: false, italic: true }
}

/// Bold black on one of the terminal's own colours.
#[verifier::allow_in_spec]
pub fn badge(ink: Ink) -> Style
    returns
        (Style { fg: Some(Ink::Black), bg: Some(ink), bold: true, italic: false }),
{
    Style { fg: Some(Ink::Black), bg: Some(ink), bold: true, italic: false }
}

/// A run of text in one style.
#[derive(Debug, PartialEq, Eq)]
pub struct Span {
    pub text: String,
    pub style: Style,
}

#[verifier::ext_equal]
pub ghost struct SpanView {
    pub text: Seq<char>,
    pub style: Style,
}

impl View for Span {
    type V = SpanView;

    open spec fn view(&self) -> SpanView {
        SpanView { text: self.text@, style: self.style }
    }
}

/// A run of text.
pub open spec fn sp(text: Seq<char>, style: Style) -> SpanView {
    SpanView { text, style }
}

pub(crate) fn span(text: &str, style: Style) -> (r: Span)
    ensures
        r@ == sp(text@, style),
{
    Span { text: text.to_owned(), style }
}

pub(crate) fn span_of(text: String, style: Style) -> (r: Span)
    ensures
        r@ == sp(text@, style),
{
    Span { text, style }
}

/// A line of text.
#[derive(Debug, PartialEq, Eq)]
pub struct Line {
    pub spans: Vec<Span>,
}

pub type LineView = Seq<SpanView>;

impl View for Line {
    type V = Seq<SpanView>;

    open spec fn view(&self) -> Seq<SpanView> {
        views(self.spans@)
    }
}

pub(crate) fn line(spans: Vec<Span>) -> (r: Line)
    ensures
        r@ == views(spans@),
{
    Line { spans }
}

pub(crate) fn blank() -> (r: Line)
    ensures
        r@ == Seq::<SpanView>::empty(),
{
    let r = Line { spans: Vec::new() };
    assert(r@ =~= Seq::empty());
    r
}

pub(crate) fn one(text: &str, style: Style) -> (r: Line)
    ensures
        r@ == seq![sp(text@, style)],
{
    let mut spans: Vec<Span> = Vec::new();
    spans.push(span(text, style));
    assert(views(spans@) =~= seq![sp(text@, style)]);
    Line { spans }
}

pub(crate) fn two(a: Span, b: Span) -> (r: Line)
    ensures
        r@ == seq![a@, b@],
{
    let ghost s = seq![a@, b@];
    let mut spans: Vec<Span> = Vec::new();
    spans.push(a);
    spans.push(b);
    assert(views(spans@) =~= s);
    Line { spans }
}

pub(crate) fn three(a: Span, b: Span, c: Span) -> (r: Line)
    ensures
        r@ == seq![a@, b@, c@],
{
    let ghost s = seq![a@, b@, c@];
    let mut spans: Vec<Span> = Vec::new();
    spans.push(a);
    spans.push(b);
    spans.push(c);
    assert(views(spans@) =~= s);
    Line { spans }
}

pub(crate) fn four(a: Span, b: Span, c: Span, d: Span) -> (r: Line)
    ensures
        r@ == seq![a@, b@, c@, d@],
{
    let ghost s = seq![a@, b@, c@, d@];
    let mut spans: Vec<Span> = Vec::new();
    spans.push(a);
    spans.push(b);
    spans.push(c);
    spans.push(d);
    assert(views(spans@) =~= s);
    Line { spans }
}

/// How lines sit in their rectangle.
#[derive(Debug, Clone, Copy, PartialEq, Eq, Structural)]
pub enum Flow {
    /// At the left, cut at the right edge, scrolled by this many columns.
    Cut { scroll: u16 },
    /// In the middle, cut at the edges.
    Centred,
    /// In the middle, wrapped, spaces at the ends trimmed.
    CentredWrapped,
    /// At the left, wrapped, spaces kept.
    Wrapped,
}

/// A run of log text with the style that its escape sequences gave it: colour
/// names, and the modifiers that are switched on and off, as bits.
#[derive(Debug, PartialEq, Eq)]
pub struct LogRun {
    pub text: String,
    pub fg: Option<String>,
    pub bg: Option<String>,
    pub add: u16,
    pub sub: u16,
}

#[verifier::ext_equal]
pub ghost struct RunView {
    pub text: Seq<char>,
    pub fg: Option<Seq<char>>,
    pub bg: Option<Seq<char>>,
    pub add: u16,
    pub sub: u16,
}

impl View for LogRun {
    type V = RunView;

    open spec fn view(&self) -> RunView {
        RunView {
            text: self.text@,
            fg: opt_text(self.fg),
            bg: opt_text(self.bg),
            add: self.add,
            sub: self.sub,
        }
    }
}

/// A styled log line.
#[derive(Debug, PartialEq, Eq)]
pub struct LogLine {
    pub runs: Vec<LogRun>,
}

impl View for LogLine {
    type V = Seq<RunView>;

    open spec fn view(&self) -> Seq<RunView> {
        views(self.runs@)
    }
}

/// One thing to draw. A frame is drawn in the order of its list.
#[allow(inconsistent_fields)]
#[derive(Debug, PartialEq, Eq)]
pub enum Draw {
    /// Erase what is there.
    Clear(Rect),
    /// A background.
    Fill { area: Rect, style: Style },
    /// A rounded border with a title.
    Frame { area: Rect, title: Line, border: Ink, background: Option<Ink> },
    /// Lines of text, on a background of their own where `fill` has one.
    Text { area: Rect, lines: Vec<Line>, flow: Flow, fill: Style },
    /// Log lines, wrapped.
    Logs { area: Rect, lines: Vec<LogLine> },
    /// The log scrollbar: `steps` positions, the thumb at one of them.
    Scrollbar { area: Rect, steps: usize, position: usize, paused: bool },
}

#[allow(inconsistent_fields)]
#[verifier::ext_equal]
pub ghost enum DrawView {
    Clear(Rect),
    Fill { area: Rect, style: Style },
    Frame { area: Rect, title: Seq<SpanView>, border: Ink, background: Option<Ink> },
    Text { area: Rect, lines: Seq<Seq<SpanView>>, flow: Flow, fill: Style },
    Logs { area: Rect, lines: Seq<Seq<RunView>> },
    Scrollbar { area: Rect, steps: usize, position: usize, paused: bool },
}

impl View for Draw {
    type V = DrawView;

    open spec fn view(&self) -> DrawView {
        match *self {
            Draw::Clear(area) => DrawView::Clear(area),
            Draw::Fill { area, style } => DrawView::Fill { area, style },
            Draw::Frame { area, title, border, background } => DrawView::Frame {
                area,
                title: title@,
                border,
                background,
            },
            Draw::Text { area, lines, flow, fill } => DrawView::Text {
                area,
                lines: views(lines@),
                flow,
                fill,
            },
            Draw::Logs { area, lines } => DrawView::Logs { area, lines: views(lines@) },
            Draw::Scrollbar { area, steps, position, paused } => DrawView::Scrollbar {
                area,
                steps,
                position,
                paused,
            },
        }
    }
}

/// Lines of text at the left.
pub open spec fn lines_at(area: Rect, lines: Seq<Seq<SpanView>>) -> DrawView {
    DrawView::Text { area, lines, flow: Flow::Cut { scroll: 0 }, fill: plain() }
}

/// One line of text at the left, on a background of its own where `fill` has
/// one.
pub open spec fn line_at(area: Rect, text: Seq<SpanView>, fill: Style) -> DrawView {
    DrawView::Text { area, lines: seq![text], flow: Flow::Cut { scroll: 0 }, fill }
}

/// Draws `more` after what is drawn already.
pub(crate) fn draw_also(r: &mut Vec<Draw>, more: Vec<Draw>)
    ensures
        views(final(r)@) == views(old(r)@) + views(more@),
{
    let ghost before = views(r@);
    let ghost after = views(more@);
    let mut rest = more;
    r.append(&mut rest);
    assert(views(r@) =~= before + after);
}

pub(crate) fn draw_lines(area: Rect, lines: Vec<Line>) -> (r: Draw)
    ensures
        r@ == lines_at(area, views(lines@)),
{
    Draw::Text { area, lines, flow: Flow::Cut { scroll: 0 }, fill: plain() }
}

pub(crate) fn draw_line(area: Rect, text: Line, fill: Style) -> (r: Draw)
    ensures
        r@ == line_at(area, text@, fill),
{
    let ghost t = text@;
    let mut lines: Vec<Line> = Vec::new();
    lines.push(text);
    assert(views(lines@) =~= seq![t]);
    Draw::Text { area, lines, flow: Flow::Cut { scroll: 0 }, fill }
}

/// Spaces to fill a text up to a width.
pub open spec fn gap(width: int, used: int) -> Seq<char> {
    repeated(" "@, less(width, used) as nat)
}

/// A text filled up to a width on the right.
pub open spec fn padded(s: Seq<char>, width: int) -> Seq<char> {
    s + gap(width, s.len() as int)
}

pub(crate) fn gap_text(width: usize, used: usize) -> (r: String)
    ensures
        r@ == gap(width as int, used as int),
{
    repeat(" ", width.saturating_sub(used))
}

pub(crate) fn pad(s: &str, width: usize) -> (r: String)
    ensures
        r@ == padded(s@, width as int),
{
    let mut r = s.to_owned();
    r.append(gap_text(width, columns(s)).as_str());
    r
}

pub(crate) fn joined2(a: &str, b: &str) -> (r: String)
    ensures
        r@ == a@ + b@,
{
    let mut r = a.to_owned();
    r.append(b);
    r
}

pub(crate) fn joined3(a: &str, b: &str, c: &str) -> (r: String)
    ensures
        r@ == a@ + b@ + c@,
{
    let mut r = a.to_owned();
    r.append(b);
    r.append(c);
    r
}

/// Columns that a text takes: one per character.
pub(crate) fn columns(s: &str) -> (r: usize)
    ensures
        r == s@.len(),
{
    chars_of(s).len()
}

} // verus!
