//! Sections: the tree blocks that are the one multi-line progress style.
//!
//! ```text
//!
//!   ◆  Check dependencies
//!   │
//!   │  ◇ tools
//!   │  ⚠ gcloud_adc  not found
//!   │    ↳ gcloud auth application-default login
//!   │
//!   └  All dependencies satisfied
//!
//! ```
use vstd::prelude::*;
use vstd::string::*;

use crate::text::opt_str;

use super::{ansi, glyph, Style};

verus! {

/// The kind of a section item: decides glyph and colour.
#[derive(Debug, Clone, Copy, PartialEq, Eq, Structural)]
pub enum Item {
    /// Done / fine: green `◇`.
    Done,
    /// Needs attention: yellow `⚠`, label bolded.
    Warn,
    /// Failed: red `✗`, label bolded.
    Fail,
    /// Deliberately not done: dim `◇`, dim label.
    Skip,
}

impl Item {
    pub open spec fn glyph_text(self) -> Seq<char> {
        match self {
            Item::Done => glyph::DONE@,
            Item::Warn => glyph::WARN@,
            Item::Fail => glyph::FAIL@,
            Item::Skip => glyph::DONE@,
        }
    }

    pub open spec fn code(self) -> Seq<char> {
        match self {
            Item::Done => ansi::GREEN@,
            Item::Warn => ansi::YELLOW@,
            Item::Fail => ansi::RED@,
            Item::Skip => ansi::DIM@,
        }
    }

    fn glyph_str(self) -> (r: &'static str)
        ensures
            r@ == self.glyph_text(),
    {
        match self {
            Item::Done => glyph::DONE,
            Item::Warn => glyph::WARN,
            Item::Fail => glyph::FAIL,
            Item::Skip => glyph::DONE,
        }
    }

    fn code_str(self) -> (r: &'static str)
        ensures
            r@ == self.code(),
    {
        match self {
            Item::Done => ansi::GREEN,
            Item::Warn => ansi::YELLOW,
            Item::Fail => ansi::RED,
            Item::Skip => ansi::DIM,
        }
    }
}

/// The dim bar that rows start with.
pub open spec fn bar(style: Style) -> Seq<char> {
    style.painted(ansi::DIM@, glyph::BAR@)
}

/// The prefix of a row at item depth.
pub open spec fn row_start(style: Style) -> Seq<char> {
    "  "@ + bar(style) + "  "@
}

/// The prefix of a row one level deeper.
pub open spec fn sub_start(style: Style) -> Seq<char> {
    "  "@ + bar(style) + "    "@
}

/// A dim remark after something else; nothing where it is absent or empty.
pub open spec fn trailing(style: Style, note: Option<Seq<char>>) -> Seq<char> {
    match note {
        Some(n) => if n.len() == 0 {
            Seq::empty()
        } else {
            "  "@ + style.painted(ansi::DIM@, n)
        },
        None => Seq::empty(),
    }
}

/// The header: a blank line, the title with its note, a bar.
pub open spec fn header_rows(style: Style, title: Seq<char>, note: Option<Seq<char>>) -> Seq<char> {
    "\n"@ + ("  "@ + style.painted(ansi::CYAN@, glyph::SECTION@) + "  "@ + style.painted(
        ansi::BOLD@,
        title,
    ) + trailing(style, note) + "\n"@) + gutter_row(style)
}

/// An empty `│` row.
pub open spec fn gutter_row(style: Style) -> Seq<char> {
    "  "@ + bar(style) + "\n"@
}

/// The label of an item: as it is when done, bold when it needs attention or
/// failed, dim when skipped.
pub open spec fn item_label(style: Style, kind: Item, label: Seq<char>) -> Seq<char> {
    match kind {
        Item::Done => label,
        Item::Warn => style.painted(ansi::BOLD@, label),
        Item::Fail => style.painted(ansi::BOLD@, label),
        Item::Skip => style.painted(ansi::DIM@, label),
    }
}

pub open spec fn item_row(
    style: Style,
    kind: Item,
    label: Seq<char>,
    detail: Option<Seq<char>>,
) -> Seq<char> {
    row_start(style) + style.painted(kind.code(), kind.glyph_text()) + " "@ + item_label(
        style,
        kind,
        label,
    ) + trailing(style, detail) + "\n"@
}

pub open spec fn hint_row(style: Style, msg: Seq<char>) -> Seq<char> {
    sub_start(style) + style.painted(ansi::DIM@, glyph::HINT@ + " "@ + msg) + "\n"@
}

pub open spec fn raw_row(style: Style, raw: Seq<char>) -> Seq<char> {
    row_start(style) + raw + "\n"@
}

pub open spec fn sub_row(style: Style, kind: Item, text: Seq<char>) -> Seq<char> {
    sub_start(style) + style.painted(kind.code(), kind.glyph_text() + " "@ + text) + "\n"@
}

pub open spec fn field_rows(style: Style, name: Seq<char>, help: Option<Seq<char>>) -> Seq<char> {
    let first = row_start(style) + style.painted(ansi::CYAN@ + ansi::BOLD@, name) + "\n"@;
    match help {
        Some(h) => if h.len() == 0 {
            first
        } else {
            first + (row_start(style) + style.painted(ansi::DIM@, h) + "\n"@)
        },
        None => first,
    }
}

pub open spec fn sub_note_row(style: Style, text: Seq<char>) -> Seq<char> {
    sub_start(style) + style.painted(ansi::DIM@, text) + "\n"@
}

/// A question: no newline at its end.
pub open spec fn prompt_text(style: Style, text: Seq<char>) -> Seq<char> {
    sub_start(style) + style.painted(ansi::DIM@, text) + " "@
}

/// The footer: a bar, the summary in the colour of its kind, a blank line.
pub open spec fn footer_rows(style: Style, kind: Item, summary: Seq<char>) -> Seq<char> {
    gutter_row(style) + ("  "@ + glyph::BAR_END@ + "  "@ + style.painted(kind.code(), summary)
        + "\n"@) + "\n"@
}

/// A section under construction: what it has rendered so far.
pub struct Section {
    out: String,
    style: Style,
}

#[verifier::ext_equal]
pub ghost struct SectionView {
    pub out: Seq<char>,
    pub style: Style,
}

impl View for Section {
    type V = SectionView;

    closed spec fn view(&self) -> SectionView {
        SectionView { out: self.out@, style: self.style }
    }
}

impl SectionView {
    /// The section with more rendered.
    pub open spec fn with(self, rows: Seq<char>) -> SectionView {
        SectionView { out: self.out + rows, ..self }
    }
}

fn tail(style: Style, note: Option<&str>) -> (r: String)
    ensures
        r@ == trailing(style, opt_str(note)),
{
    match note {
        Some(n) => {
            if n.is_empty() {
                return String::new();
            }
            let mut r = "  ".to_owned();
            r.append(style.dim(n).as_str());
            r
        },
        None => String::new(),
    }
}

impl Section {
    /// Opens a section after `out`: blank line, `◆ <title>` header, then a bar.
    pub fn begin(out: String, style: Style, title: &str) -> (r: Self)
        ensures
            r@ == (SectionView { out: out@ + header_rows(style, title@, None), style }),
    {
        Section::begin_noted(out, style, title, None)
    }

    /// [`begin`](Self::begin) with a dim note after the title.
    pub fn begin_noted(out: String, style: Style, title: &str, note: Option<&str>) -> (r: Self)
        ensures
            r@ == (SectionView { out: out@ + header_rows(style, title@, opt_str(note)), style }),
    {
        let mut row = "  ".to_owned();
        row.append(style.accent(glyph::SECTION).as_str());
        row.append("  ");
        row.append(style.bold(title).as_str());
        row.append(tail(style, note).as_str());
        row.append("\n");
        let mut text = "\n".to_owned();
        text.append(row.as_str());
        let mut bars = "  ".to_owned();
        bars.append(style.dim(glyph::BAR).as_str());
        bars.append("\n");
        text.append(bars.as_str());
        assert(text@ =~= header_rows(style, title@, opt_str(note)));
        let mut all = out;
        all.append(text.as_str());
        Section { out: all, style }
    }

    fn push(&mut self, rows: &str)
        ensures
            final(self)@ == old(self)@.with(rows@),
    {
        self.out.append(rows);
    }

    fn row(&self) -> (r: String)
        ensures
            r@ == row_start(self@.style),
    {
        let mut r = "  ".to_owned();
        r.append(self.style.dim(glyph::BAR).as_str());
        r.append("  ");
        r
    }

    fn sub_depth(&self) -> (r: String)
        ensures
            r@ == sub_start(self@.style),
    {
        let mut r = "  ".to_owned();
        r.append(self.style.dim(glyph::BAR).as_str());
        r.append("    ");
        r
    }

    /// An empty `│` spacer row.
    pub fn gutter(&mut self)
        ensures
            final(self)@ == old(self)@.with(gutter_row(old(self)@.style)),
    {
        let mut r = "  ".to_owned();
        r.append(self.style.dim(glyph::BAR).as_str());
        r.append("\n");
        self.push(r.as_str());
    }

    /// One item row. `detail` rides dim after the label.
    pub fn item(&mut self, kind: Item, label: &str, detail: Option<&str>)
        ensures
            final(self)@ == old(self)@.with(
                item_row(old(self)@.style, kind, label@, opt_str(detail)),
            ),
    {
        let style = self.style;
        let mut r = self.row();
        r.append(style.paint(kind.code_str(), kind.glyph_str()).as_str());
        r.append(" ");
        let shown = match kind {
            Item::Done => label.to_owned(),
            Item::Warn => style.bold(label),
            Item::Fail => style.bold(label),
            Item::Skip => style.dim(label),
        };
        r.append(shown.as_str());
        r.append(tail(style, detail).as_str());
        r.append("\n");
        self.push(r.as_str());
    }

    pub fn ok(&mut self, label: &str)
        ensures
            final(self)@ == old(self)@.with(item_row(old(self)@.style, Item::Done, label@, None)),
    {
        self.item(Item::Done, label, None);
    }

    pub fn warn_item(&mut self, label: &str, detail: Option<&str>)
        ensures
            final(self)@ == old(self)@.with(
                item_row(old(self)@.style, Item::Warn, label@, opt_str(detail)),
            ),
    {
        self.item(Item::Warn, label, detail);
    }

    pub fn fail(&mut self, label: &str, detail: Option<&str>)
        ensures
            final(self)@ == old(self)@.with(
                item_row(old(self)@.style, Item::Fail, label@, opt_str(detail)),
            ),
    {
        self.item(Item::Fail, label, detail);
    }

    /// A dim `↳ <fix>` continuation under the previous item.
    pub fn hint(&mut self, msg: &str)
        ensures
            final(self)@ == old(self)@.with(hint_row(old(self)@.style, msg@)),
    {
        let mut text = glyph::HINT.to_owned();
        text.append(" ");
        text.append(msg);
        let mut r = self.sub_depth();
        r.append(self.style.dim(text.as_str()).as_str());
        r.append("\n");
        self.push(r.as_str());
    }

    /// A free-form row after the bar: for prompt text and streamed command
    /// output inside the tree.
    pub fn line(&mut self, raw: &str)
        ensures
            final(self)@ == old(self)@.with(raw_row(old(self)@.style, raw@)),
    {
        let mut r = self.row();
        r.append(raw);
        r.append("\n");
        self.push(r.as_str());
    }

    /// A sub-status with a glyph under the previous item.
    pub fn sub(&mut self, kind: Item, text: &str)
        ensures
            final(self)@ == old(self)@.with(sub_row(old(self)@.style, kind, text@)),
    {
        let mut t = kind.glyph_str().to_owned();
        t.append(" ");
        t.append(text);
        let mut r = self.sub_depth();
        r.append(self.style.paint(kind.code_str(), t.as_str()).as_str());
        r.append("\n");
        self.push(r.as_str());
    }

    /// A wizard field header: the name, then an optional dim help line.
    pub fn field(&mut self, name: &str, help: Option<&str>)
        ensures
            final(self)@ == old(self)@.with(
                field_rows(old(self)@.style, name@, opt_str(help)),
            ),
    {
        let mut code = ansi::CYAN.to_owned();
        code.append(ansi::BOLD);
        let mut r = self.row();
        r.append(self.style.paint(code.as_str(), name).as_str());
        r.append("\n");
        match help {
            Some(h) => {
                if !h.is_empty() {
                    let mut second = self.row();
                    second.append(self.style.dim(h).as_str());
                    second.append("\n");
                    r.append(second.as_str());
                }
            },
            None => {},
        }
        self.push(r.as_str());
    }

    /// A dim sub-line without a glyph under the previous item.
    pub fn sub_note(&mut self, text: &str)
        ensures
            final(self)@ == old(self)@.with(sub_note_row(old(self)@.style, text@)),
    {
        let mut r = self.sub_depth();
        r.append(self.style.dim(text).as_str());
        r.append("\n");
        self.push(r.as_str());
    }

    /// An inline question under the previous item, without a newline: the
    /// caller shows it and reads the answer.
    pub fn prompt(&mut self, text: &str)
        ensures
            final(self)@ == old(self)@.with(prompt_text(old(self)@.style, text@)),
    {
        let mut r = self.sub_depth();
        r.append(self.style.dim(text).as_str());
        r.append(" ");
        self.push(r.as_str());
    }

    /// Ends the line of an unanswered [`prompt`](Self::prompt).
    pub fn newline(&mut self)
        ensures
            final(self)@ == old(self)@.with("\n"@),
    {
        self.push("\n");
    }

    /// Lends what is rendered so far to a nested renderer, which does its own
    /// bar-prefixing.
    pub fn writer(&mut self) -> (r: &mut String)
        ensures
            r@ == old(self)@.out,
            final(self)@ == (SectionView { out: final(r)@, ..old(self)@ }),
    {
        &mut self.out
    }

    /// The `  │  ` prefix, for code that writes its own text and still wants
    /// to sit in the tree.
    pub fn bar_prefix(&self) -> (r: String)
        ensures
            r@ == row_start(self@.style),
    {
        self.row()
    }

    /// Closes the section and gives back what was rendered: gutter,
    /// `└ <summary>`, blank line. The summary is painted by `kind`.
    pub fn end(self, kind: Item, summary: &str) -> (r: String)
        ensures
            r@ == self@.out + footer_rows(self@.style, kind, summary@),
    {
        let mut bars = "  ".to_owned();
        bars.append(self.style.dim(glyph::BAR).as_str());
        bars.append("\n");
        let mut row = "  ".to_owned();
        row.append(glyph::BAR_END);
        row.append("  ");
        row.append(self.style.paint(kind.code_str(), summary).as_str());
        row.append("\n");
        let mut text = bars;
        text.append(row.as_str());
        text.append("\n");
        assert(text@ =~= footer_rows(self.style, kind, summary@));
        let mut all = self.out;
        all.append(text.as_str());
        all
    }
}

} // verus!
