//! Terminal output of the command line: one visual language, one set of rules.
//!
//! One-liners are `devme: <msg>`, optionally scoped, and go to stderr; those
//! that only inform are dropped when quiet. Sections are the tree of `◆ │ ◇ └`
//! rows. Colour is decided once per stream and carried as a [`Style`].
use vstd::prelude::*;
use vstd::string::*;

use crate::text::opt_text;

pub mod ansi;
pub mod glyph;
pub mod laws;
pub mod section;

pub use self::section::{Item, Section};

verus! {

/// The colour decision for a stream. Renderers take one instead of probing
/// flags and environment themselves.
#[derive(Debug, Clone, Copy, PartialEq, Eq, Structural)]
pub struct Style {
    pub color: bool,
}

impl Style {
    /// No colour: for pipes and tests.
    pub fn plain() -> (r: Style)
        ensures
            !r.color,
    {
        Style { color: false }
    }

    /// Forced colour.
    pub fn forced() -> (r: Style)
        ensures
            r.color,
    {
        Style { color: true }
    }

    /// `s` between a code and the reset, or as it is.
    pub open spec fn painted(self, code: Seq<char>, s: Seq<char>) -> Seq<char> {
        if self.color {
            code + s + ansi::RESET@
        } else {
            s
        }
    }

    /// Wraps `s` in `code` and a reset, or passes it through. Apply padding
    /// before painting so that escape bytes don't skew columns.
    pub fn paint(&self, code: &str, s: &str) -> (r: String)
        ensures
            r@ == self.painted(code@, s@),
    {
        if self.color {
            let mut r = code.to_owned();
            r.append(s);
            r.append(ansi::RESET);
            r
        } else {
            s.to_owned()
        }
    }

    pub fn bold(&self, s: &str) -> (r: String)
        ensures
            r@ == self.painted(ansi::BOLD@, s@),
    {
        self.paint(ansi::BOLD, s)
    }

    pub fn dim(&self, s: &str) -> (r: String)
        ensures
            r@ == self.painted(ansi::DIM@, s@),
    {
        self.paint(ansi::DIM, s)
    }

    pub fn ok(&self, s: &str) -> (r: String)
        ensures
            r@ == self.painted(ansi::GREEN@, s@),
    {
        self.paint(ansi::GREEN, s)
    }

    pub fn warn(&self, s: &str) -> (r: String)
        ensures
            r@ == self.painted(ansi::YELLOW@, s@),
    {
        self.paint(ansi::YELLOW, s)
    }

    pub fn err(&self, s: &str) -> (r: String)
        ensures
            r@ == self.painted(ansi::RED@, s@),
    {
        self.paint(ansi::RED, s)
    }

    pub fn accent(&self, s: &str) -> (r: String)
        ensures
            r@ == self.painted(ansi::CYAN@, s@),
    {
        self.paint(ansi::CYAN, s)
    }
}

/// Which colour variables the environment sets.
#[derive(Debug, Clone, Copy, PartialEq, Eq, Structural)]
pub struct ColorEnv {
    /// `NO_COLOR`
    pub no_color: bool,
    /// `FORCE_COLOR`
    pub force_color: bool,
    /// `CLICOLOR_FORCE`
    pub clicolor_force: bool,
}

/// Whether a stream gets colour.
pub open spec fn colored(no_color_flag: bool, env: ColorEnv, is_tty: bool) -> bool {
    !no_color_flag && !env.no_color && (env.force_color || env.clicolor_force || is_tty)
}

/// Resolves whether a stream should get colour: an explicit `--no-color` wins,
/// then `NO_COLOR`, then `FORCE_COLOR`/`CLICOLOR_FORCE` (opting back in when
/// piped), then whether the stream is a terminal.
pub fn detect_color(no_color_flag: bool, env: ColorEnv, is_tty: bool) -> (r: bool)
    ensures
        r == colored(no_color_flag, env, is_tty),
{
    if no_color_flag || env.no_color {
        return false;
    }
    if env.force_color || env.clicolor_force {
        return true;
    }
    is_tty
}

/// How a process presents its output.
#[derive(Debug, Clone, Copy, PartialEq, Eq, Structural)]
pub struct Ui {
    pub quiet: bool,
    pub out: Style,
    pub err: Style,
}

/// The presentation where nothing was decided.
pub open spec fn undecided() -> Ui {
    Ui { quiet: false, out: Style { color: false }, err: Style { color: false } }
}

/// The presentation of a process, decided once: the first decision stays, and
/// output before any decision settles on the plain one.
pub struct UiCell {
    decided: Option<Ui>,
}

impl View for UiCell {
    type V = Option<Ui>;

    closed spec fn view(&self) -> Option<Ui> {
        self.decided
    }
}

/// What is settled after a read.
pub open spec fn settled(cell: Option<Ui>) -> Ui {
    match cell {
        Some(ui) => ui,
        None => undecided(),
    }
}

impl UiCell {
    pub fn new() -> (r: Self)
        ensures
            r@ is None,
    {
        UiCell { decided: None }
    }

    fn get(&mut self) -> (r: Ui)
        ensures
            r == settled(old(self)@),
            final(self)@ == Some(settled(old(self)@)),
    {
        match self.decided {
            Some(ui) => ui,
            None => {
                let ui = Ui {
                    quiet: false,
                    out: Style { color: false },
                    err: Style { color: false },
                };
                self.decided = Some(ui);
                ui
            },
        }
    }
}

/// Decides quietness and colour, at process start. Calling it again changes
/// nothing, so that libraries can never re-decide presentation.
pub fn init(
    cell: &mut UiCell,
    quiet: bool,
    no_color_flag: bool,
    env: ColorEnv,
    out_is_tty: bool,
    err_is_tty: bool,
)
    ensures
        final(cell)@ == match old(cell)@ {
            Some(ui) => Some(ui),
            None => Some(
                Ui {
                    quiet,
                    out: Style { color: colored(no_color_flag, env, out_is_tty) },
                    err: Style { color: colored(no_color_flag, env, err_is_tty) },
                },
            ),
        },
{
    if cell.decided.is_none() {
        cell.decided = Some(
            Ui {
                quiet,
                out: Style { color: detect_color(no_color_flag, env, out_is_tty) },
                err: Style { color: detect_color(no_color_flag, env, err_is_tty) },
            },
        );
    }
}

/// Was `-q` passed?
pub fn quiet(cell: &mut UiCell) -> (r: bool)
    ensures
        r == settled(old(cell)@).quiet,
        final(cell)@ == Some(settled(old(cell)@)),
{
    cell.get().quiet
}

/// Style for stdout (tables, data).
pub fn out_style(cell: &mut UiCell) -> (r: Style)
    ensures
        r == settled(old(cell)@).out,
        final(cell)@ == Some(settled(old(cell)@)),
{
    cell.get().out
}

/// Style for stderr (one-liners, sections rendered to stderr).
pub fn err_style(cell: &mut UiCell) -> (r: Style)
    ensures
        r == settled(old(cell)@).err,
        final(cell)@ == Some(settled(old(cell)@)),
{
    cell.get().err
}

/// A message source: `devme` or `devme <scope>`.
#[derive(Debug, Clone, Copy)]
pub struct Scope(pub &'static str);

/// The default `devme:` scope.
pub fn root() -> (r: Scope)
    ensures
        r.0@ == ""@,
{
    Scope("")
}

/// A subcommand scope: `scoped("remote")` is `devme remote: …`.
pub fn scoped(name: &'static str) -> (r: Scope)
    ensures
        r.0@ == name@,
{
    Scope(name)
}

impl Scope {
    /// What every message of this source starts with.
    pub open spec fn prefix_text(self) -> Seq<char> {
        if self.0@.len() == 0 {
            "devme:"@
        } else {
            "devme "@ + self.0@ + ":"@
        }
    }

    /// A message line, with or without a glyph.
    pub open spec fn line_text(
        self,
        glyph: Seq<char>,
        glyph_color: Seq<char>,
        msg: Seq<char>,
        style: Style,
    ) -> Seq<char> {
        if glyph.len() == 0 {
            self.prefix_text() + " "@ + msg
        } else {
            self.prefix_text() + " "@ + style.painted(glyph_color, glyph) + " "@ + msg
        }
    }

    pub fn prefix(&self) -> (r: String)
        ensures
            r@ == self.prefix_text(),
    {
        if self.0.is_empty() {
            "devme:".to_owned()
        } else {
            let mut r = "devme ".to_owned();
            r.append(self.0);
            r.append(":");
            r
        }
    }

    pub fn format(&self, glyph: &str, glyph_color: &str, msg: &str, style: Style) -> (r: String)
        ensures
            r@ == self.line_text(glyph@, glyph_color@, msg@, style),
    {
        let mut r = self.prefix();
        r.append(" ");
        if !glyph.is_empty() {
            r.append(style.paint(glyph_color, glyph).as_str());
            r.append(" ");
        }
        r.append(msg);
        r
    }

    /// Progress/narration: the line for stderr, none when quiet.
    pub fn info(&self, cell: &mut UiCell, msg: &str) -> (r: Option<String>)
        ensures
            final(cell)@ == Some(settled(old(cell)@)),
            opt_text(r) == if settled(old(cell)@).quiet {
                None
            } else {
                Some(self.prefix_text() + " "@ + msg@)
            },
    {
        let ui = cell.get();
        proof {
            reveal_strlit("");
        }
        if ui.quiet {
            None
        } else {
            Some(self.format("", "", msg, ui.err))
        }
    }

    /// A completed outcome worth a glyph: the line for stderr, none when
    /// quiet.
    pub fn success(&self, cell: &mut UiCell, msg: &str) -> (r: Option<String>)
        ensures
            final(cell)@ == Some(settled(old(cell)@)),
            opt_text(r) == if settled(old(cell)@).quiet {
                None
            } else {
                Some(
                    self.line_text(glyph::OK@, ansi::GREEN@, msg@, settled(old(cell)@).err),
                )
            },
    {
        let ui = cell.get();
        if ui.quiet {
            None
        } else {
            Some(self.format(glyph::OK, ansi::GREEN, msg, ui.err))
        }
    }

    /// Something off but not fatal: the line for stderr. Quiet suppresses
    /// information, not warnings.
    pub fn warn(&self, cell: &mut UiCell, msg: &str) -> (r: String)
        ensures
            final(cell)@ == Some(settled(old(cell)@)),
            r@ == self.line_text(glyph::WARN@, ansi::YELLOW@, msg@, settled(old(cell)@).err),
    {
        let ui = cell.get();
        self.format(glyph::WARN, ansi::YELLOW, msg, ui.err)
    }

    /// A failure: the line for stderr, quiet or not.
    pub fn error(&self, cell: &mut UiCell, msg: &str) -> (r: String)
        ensures
            final(cell)@ == Some(settled(old(cell)@)),
            r@ == self.line_text(glyph::FAIL@, ansi::RED@, msg@, settled(old(cell)@).err),
    {
        let ui = cell.get();
        self.format(glyph::FAIL, ansi::RED, msg, ui.err)
    }
}

/// `devme: <msg>`: progress/narration, none when quiet.
pub fn info(cell: &mut UiCell, msg: &str) -> (r: Option<String>)
    ensures
        final(cell)@ == Some(settled(old(cell)@)),
        opt_text(r) == if settled(old(cell)@).quiet {
            None
        } else {
            Some("devme:"@ + " "@ + msg@)
        },
{
    proof {
        reveal_strlit("");
    }
    root().info(cell, msg)
}

/// `devme: ✔ <msg>`, none when quiet.
pub fn success(cell: &mut UiCell, msg: &str) -> (r: Option<String>)
    ensures
        final(cell)@ == Some(settled(old(cell)@)),
        opt_text(r) == if settled(old(cell)@).quiet {
            None
        } else {
            Some(
                "devme:"@ + " "@ + settled(old(cell)@).err.painted(ansi::GREEN@, glyph::OK@) + " "@
                    + msg@,
            )
        },
{
    proof {
        reveal_strlit("");
        reveal_strlit("✔");
    }
    root().success(cell, msg)
}

/// `devme: ⚠ <msg>`, quiet or not.
pub fn warn(cell: &mut UiCell, msg: &str) -> (r: String)
    ensures
        final(cell)@ == Some(settled(old(cell)@)),
        r@ == "devme:"@ + " "@ + settled(old(cell)@).err.painted(ansi::YELLOW@, glyph::WARN@)
            + " "@ + msg@,
{
    proof {
        reveal_strlit("");
        reveal_strlit("⚠");
    }
    root().warn(cell, msg)
}

/// `devme: ✗ <msg>`, quiet or not.
pub fn error(cell: &mut UiCell, msg: &str) -> (r: String)
    ensures
        final(cell)@ == Some(settled(old(cell)@)),
        r@ == "devme:"@ + " "@ + settled(old(cell)@).err.painted(ansi::RED@, glyph::FAIL@) + " "@
            + msg@,
{
    proof {
        reveal_strlit("");
        reveal_strlit("✗");
    }
    root().error(cell, msg)
}

/// `  ↳ <msg>`: a dim follow-up under the previous line, none when quiet.
pub fn hint(cell: &mut UiCell, msg: &str) -> (r: Option<String>)
    ensures
        final(cell)@ == Some(settled(old(cell)@)),
        opt_text(r) == if settled(old(cell)@).quiet {
            None
        } else {
            Some(
                "  "@ + settled(old(cell)@).err.painted(ansi::DIM@, glyph::HINT@ + " "@ + msg@),
            )
        },
{
    let ui = cell.get();
    if ui.quiet {
        return None;
    }
    let mut text = glyph::HINT.to_owned();
    text.append(" ");
    text.append(msg);
    let mut r = "  ".to_owned();
    r.append(ui.err.dim(text.as_str()).as_str());
    Some(r)
}

/// A line without a prefix, none when quiet: for annotations woven into
/// another stream.
pub fn note(cell: &mut UiCell, msg: &str) -> (r: Option<String>)
    ensures
        final(cell)@ == Some(settled(old(cell)@)),
        opt_text(r) == if settled(old(cell)@).quiet {
            None
        } else {
            Some(msg@)
        },
{
    if cell.get().quiet {
        None
    } else {
        Some(msg.to_owned())
    }
}

/// A JSON document; carried through, never looked into.
#[verifier::external_type_specification]
#[verifier::external_body]
pub struct ExJsonValue(serde_json::Value);

/// The pretty-printed text of a document, where it can be printed.
pub uninterp spec fn json_pretty(value: serde_json::Value) -> Option<Seq<char>>;

/// The text of a document on one line.
pub uninterp spec fn json_compact(value: serde_json::Value) -> Seq<char>;

/// `serde_json::to_string_pretty`, its error dropped: a function of the
/// document alone.
#[verifier::external_body]
fn pretty(value: &serde_json::Value) -> (r: Option<String>)
    ensures
        opt_text(r) == json_pretty(*value),
{
    serde_json::to_string_pretty(value).ok()
}

/// `serde_json::Value::to_string`: a function of the document alone.
#[verifier::external_body]
fn compact(value: &serde_json::Value) -> (r: String)
    ensures
        r@ == json_compact(*value),
{
    value.to_string()
}

/// Chooses the text of a document, given its pretty-printed text where there
/// is one.
pub fn json_text(pretty: Option<String>, value: &serde_json::Value) -> (r: String)
    ensures
        r@ == match opt_text(pretty) {
            Some(s) => s,
            None => json_compact(*value),
        },
{
    match pretty {
        Some(s) => s,
        None => compact(value),
    }
}

/// The text of a command's JSON result for stdout: pretty-printed, or on one
/// line where that fails.
pub fn json(value: &serde_json::Value) -> (r: String)
    ensures
        r@ == match json_pretty(*value) {
            Some(s) => s,
            None => json_compact(*value),
        },
{
    json_text(pretty(value), value)
}

} // verus!
