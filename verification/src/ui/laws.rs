//! What holds of terminal output as a whole: colour only adds escape
//! sequences, and the presentation of a process is decided once.
use vstd::prelude::*;

use super::section::{
    bar, field_rows, footer_rows, gutter_row, header_rows, hint_row, item_label, item_row,
    prompt_text, raw_row, row_start, sub_note_row, sub_row, sub_start, trailing, Item,
};
use super::{ansi, colored, glyph, settled, ColorEnv, Scope, Style, Ui};

verus! {

/// What is left of a text without its escape sequences, and whether it ends
/// inside one. A sequence runs from an escape character to the next `m`.
pub open spec fn scan(s: Seq<char>) -> (Seq<char>, bool)
    decreases s.len(),
{
    if s.len() == 0 {
        (Seq::empty(), false)
    } else {
        let (out, inside) = scan(s.drop_last());
        let c = s.last();
        if inside {
            (out, c != 'm')
        } else if c == '\u{1b}' {
            (out, true)
        } else {
            (out.push(c), false)
        }
    }
}

/// A text without its escape sequences.
pub open spec fn stripped(s: Seq<char>) -> Seq<char> {
    scan(s).0
}

/// A text that holds no escape character.
pub open spec fn clean(s: Seq<char>) -> bool {
    forall|i: int| 0 <= i < s.len() ==> s[i] != '\u{1b}'
}

pub open spec fn clean_opt(s: Option<Seq<char>>) -> bool {
    match s {
        Some(t) => clean(t),
        None => true,
    }
}

/// `s` shows as `t` once its escape sequences, which are all complete, are
/// taken out.
pub open spec fn shows(s: Seq<char>, t: Seq<char>) -> bool {
    scan(s) == (t, false)
}

proof fn scan_concat(a: Seq<char>, b: Seq<char>)
    requires
        !scan(a).1,
    ensures
        scan(a + b) == (scan(a).0 + scan(b).0, scan(b).1),
    decreases b.len(),
{
    if b.len() == 0 {
        assert(a + b =~= a);
        assert(scan(a).0 + scan(b).0 =~= scan(a).0);
    } else {
        scan_concat(a, b.drop_last());
        assert((a + b).drop_last() =~= a + b.drop_last());
        assert((a + b).last() == b.last());
        let (out, inside) = scan(b.drop_last());
        if !inside && b.last() != '\u{1b}' {
            assert(scan(a).0 + out.push(b.last()) =~= (scan(a).0 + out).push(b.last()));
        }
    }
}

proof fn scan_clean(s: Seq<char>)
    requires
        clean(s),
    ensures
        shows(s, s),
    decreases s.len(),
{
    if s.len() > 0 {
        scan_clean(s.drop_last());
        assert(s.drop_last().push(s.last()) =~= s);
    } else {
        assert(s =~= Seq::empty());
    }
}

proof fn shows_concat(a: Seq<char>, x: Seq<char>, b: Seq<char>, y: Seq<char>)
    requires
        shows(a, x),
        shows(b, y),
    ensures
        shows(a + b, x + y),
{
    scan_concat(a, b);
}

/// An escape character, digits and brackets, and an `m` show as nothing.
proof fn code_shows_nothing(code: Seq<char>)
    requires
        code.len() >= 2,
        code[0] == '\u{1b}',
        code.last() == 'm',
        forall|i: int| 1 <= i < code.len() - 1 ==> code[i] != 'm',
    ensures
        shows(code, Seq::empty()),
{
    code_stays_inside(code, code.len() - 1);
    assert(code.drop_last() =~= code.take(code.len() - 1));
}

proof fn code_stays_inside(code: Seq<char>, n: int)
    requires
        1 <= n < code.len(),
        code[0] == '\u{1b}',
        forall|i: int| 1 <= i < code.len() - 1 ==> code[i] != 'm',
    ensures
        scan(code.take(n)) == (Seq::<char>::empty(), true),
    decreases n,
{
    let t = code.take(n);
    if n == 1 {
        assert(t.drop_last() =~= Seq::empty());
        assert(scan(Seq::<char>::empty()) == (Seq::<char>::empty(), false));
        assert(t.last() == code[0]);
    } else {
        code_stays_inside(code, n - 1);
        assert(t.drop_last() =~= code.take(n - 1));
        assert(t.last() == code[n - 1]);
    }
}

proof fn codes_show_nothing()
    ensures
        shows(ansi::RESET@, Seq::empty()),
        shows(ansi::BOLD@, Seq::empty()),
        shows(ansi::DIM@, Seq::empty()),
        shows(ansi::RED@, Seq::empty()),
        shows(ansi::GREEN@, Seq::empty()),
        shows(ansi::YELLOW@, Seq::empty()),
        shows(ansi::CYAN@, Seq::empty()),
{
    reveal_strlit("\x1b[0m");
    reveal_strlit("\x1b[1m");
    reveal_strlit("\x1b[2m");
    reveal_strlit("\x1b[31m");
    reveal_strlit("\x1b[32m");
    reveal_strlit("\x1b[33m");
    reveal_strlit("\x1b[36m");
    code_shows_nothing(ansi::RESET@);
    code_shows_nothing(ansi::BOLD@);
    code_shows_nothing(ansi::DIM@);
    code_shows_nothing(ansi::RED@);
    code_shows_nothing(ansi::GREEN@);
    code_shows_nothing(ansi::YELLOW@);
    code_shows_nothing(ansi::CYAN@);
}

/// Law: painting clean text in any style shows the text.
pub proof fn painted_shows(style: Style, code: Seq<char>, s: Seq<char>)
    requires
        shows(code, Seq::empty()),
        clean(s),
    ensures
        shows(style.painted(code, s), s),
{
    codes_show_nothing();
    scan_clean(s);
    shows_concat(code, Seq::empty(), s, s);
    assert(Seq::<char>::empty() + s =~= s);
    shows_concat(code + s, s, ansi::RESET@, Seq::empty());
    assert(s + Seq::<char>::empty() =~= s);
}

proof fn literals_clean()
    ensures
        clean("  "@),
        clean("    "@),
        clean("\n"@),
        clean(" "@),
        clean(glyph::BAR@),
        clean(glyph::BAR_END@),
        clean(glyph::SECTION@),
        clean(glyph::HINT@),
        clean(glyph::DONE@),
        clean(glyph::WARN@),
        clean(glyph::FAIL@),
{
    reveal_strlit("  ");
    reveal_strlit("    ");
    reveal_strlit("\n");
    reveal_strlit(" ");
    reveal_strlit("│");
    reveal_strlit("└");
    reveal_strlit("◆");
    reveal_strlit("↳");
    reveal_strlit("◇");
    reveal_strlit("⚠");
    reveal_strlit("✗");
}

proof fn starts_show(style: Style)
    ensures
        shows(bar(style), glyph::BAR@),
        shows(row_start(style), row_start(Style { color: false })),
        shows(sub_start(style), sub_start(Style { color: false })),
{
    codes_show_nothing();
    literals_clean();
    painted_shows(style, ansi::DIM@, glyph::BAR@);
    scan_clean("  "@);
    scan_clean("    "@);
    shows_concat("  "@, "  "@, bar(style), glyph::BAR@);
    shows_concat("  "@ + bar(style), "  "@ + glyph::BAR@, "  "@, "  "@);
    shows_concat("  "@ + bar(style), "  "@ + glyph::BAR@, "    "@, "    "@);
}

proof fn trailing_shows(style: Style, note: Option<Seq<char>>)
    requires
        clean_opt(note),
    ensures
        shows(trailing(style, note), trailing(Style { color: false }, note)),
{
    codes_show_nothing();
    literals_clean();
    match note {
        Some(n) => {
            scan_clean("  "@);
            painted_shows(style, ansi::DIM@, n);
            shows_concat("  "@, "  "@, style.painted(ansi::DIM@, n), n);
        },
        None => {},
    }
}

proof fn kind_shows(style: Style, kind: Item)
    ensures
        shows(kind.code(), Seq::empty()),
        clean(kind.glyph_text()),
        shows(style.painted(kind.code(), kind.glyph_text()), kind.glyph_text()),
{
    codes_show_nothing();
    literals_clean();
    painted_shows(style, kind.code(), kind.glyph_text());
}

/// Law: in any style the header of a section shows the plain header.
pub proof fn header_shows(style: Style, title: Seq<char>, note: Option<Seq<char>>)
    requires
        clean(title),
        clean_opt(note),
    ensures
        stripped(header_rows(style, title, note)) == header_rows(
            Style { color: false },
            title,
            note,
        ),
{
    let plain = Style { color: false };
    codes_show_nothing();
    literals_clean();
    gutter_shows(style);
    scan_clean("\n"@);
    scan_clean("  "@);
    painted_shows(style, ansi::CYAN@, glyph::SECTION@);
    painted_shows(style, ansi::BOLD@, title);
    trailing_shows(style, note);
    let s = style.painted(ansi::CYAN@, glyph::SECTION@);
    let t = style.painted(ansi::BOLD@, title);
    let n = trailing(style, note);
    let np = trailing(plain, note);
    shows_concat("  "@, "  "@, s, glyph::SECTION@);
    shows_concat("  "@ + s, "  "@ + glyph::SECTION@, "  "@, "  "@);
    shows_concat("  "@ + s + "  "@, "  "@ + glyph::SECTION@ + "  "@, t, title);
    shows_concat(
        "  "@ + s + "  "@ + t,
        "  "@ + glyph::SECTION@ + "  "@ + title,
        n,
        np,
    );
    let row = "  "@ + s + "  "@ + t + n;
    let rowp = "  "@ + glyph::SECTION@ + "  "@ + title + np;
    shows_concat(row, rowp, "\n"@, "\n"@);
    shows_concat("\n"@, "\n"@, row + "\n"@, rowp + "\n"@);
    shows_concat(
        "\n"@ + (row + "\n"@),
        "\n"@ + (rowp + "\n"@),
        gutter_row(style),
        gutter_row(plain),
    );
}

proof fn gutter_shows(style: Style)
    ensures
        shows(gutter_row(style), gutter_row(Style { color: false })),
{
    literals_clean();
    starts_show(style);
    scan_clean("  "@);
    scan_clean("\n"@);
    shows_concat("  "@, "  "@, bar(style), glyph::BAR@);
    shows_concat("  "@ + bar(style), "  "@ + glyph::BAR@, "\n"@, "\n"@);
}

/// Law: in any style an item row shows the plain row.
pub proof fn item_shows(style: Style, kind: Item, label: Seq<char>, detail: Option<Seq<char>>)
    requires
        clean(label),
        clean_opt(detail),
    ensures
        stripped(item_row(style, kind, label, detail)) == item_row(
            Style { color: false },
            kind,
            label,
            detail,
        ),
{
    let plain = Style { color: false };
    codes_show_nothing();
    literals_clean();
    starts_show(style);
    kind_shows(style, kind);
    scan_clean(" "@);
    scan_clean("\n"@);
    scan_clean(label);
    painted_shows(style, ansi::BOLD@, label);
    painted_shows(style, ansi::DIM@, label);
    trailing_shows(style, detail);
    let a = row_start(style);
    let ap = row_start(plain);
    let g = style.painted(kind.code(), kind.glyph_text());
    let gp = kind.glyph_text();
    let l = item_label(style, kind, label);
    let lp = item_label(plain, kind, label);
    assert(shows(l, lp));
    shows_concat(a, ap, g, gp);
    shows_concat(a + g, ap + gp, " "@, " "@);
    shows_concat(a + g + " "@, ap + gp + " "@, l, lp);
    shows_concat(
        a + g + " "@ + l,
        ap + gp + " "@ + lp,
        trailing(style, detail),
        trailing(plain, detail),
    );
    shows_concat(
        a + g + " "@ + l + trailing(style, detail),
        ap + gp + " "@ + lp + trailing(plain, detail),
        "\n"@,
        "\n"@,
    );
}

proof fn clean_concat(a: Seq<char>, b: Seq<char>)
    requires
        clean(a),
        clean(b),
    ensures
        clean(a + b),
{
}

/// Law: in any style the rows under an item show the plain rows.
pub proof fn sub_rows_show(style: Style, kind: Item, text: Seq<char>)
    requires
        clean(text),
    ensures
        stripped(hint_row(style, text)) == hint_row(Style { color: false }, text),
        stripped(sub_row(style, kind, text)) == sub_row(Style { color: false }, kind, text),
        stripped(sub_note_row(style, text)) == sub_note_row(Style { color: false }, text),
        stripped(prompt_text(style, text)) == prompt_text(Style { color: false }, text),
        stripped(raw_row(style, text)) == raw_row(Style { color: false }, text),
{
    let plain = Style { color: false };
    codes_show_nothing();
    literals_clean();
    starts_show(style);
    kind_shows(style, kind);
    scan_clean("\n"@);
    scan_clean(" "@);
    scan_clean(text);
    let a = sub_start(style);
    let ap = sub_start(plain);
    let h = glyph::HINT@ + " "@ + text;
    clean_concat(glyph::HINT@, " "@);
    clean_concat(glyph::HINT@ + " "@, text);
    painted_shows(style, ansi::DIM@, h);
    shows_concat(a, ap, style.painted(ansi::DIM@, h), h);
    shows_concat(a + style.painted(ansi::DIM@, h), ap + h, "\n"@, "\n"@);
    let k = kind.glyph_text() + " "@ + text;
    clean_concat(kind.glyph_text(), " "@);
    clean_concat(kind.glyph_text() + " "@, text);
    painted_shows(style, kind.code(), k);
    shows_concat(a, ap, style.painted(kind.code(), k), k);
    shows_concat(a + style.painted(kind.code(), k), ap + k, "\n"@, "\n"@);
    painted_shows(style, ansi::DIM@, text);
    let d = style.painted(ansi::DIM@, text);
    shows_concat(a, ap, d, text);
    shows_concat(a + d, ap + text, "\n"@, "\n"@);
    shows_concat(a + d, ap + text, " "@, " "@);
    shows_concat(row_start(style), row_start(plain), text, text);
    shows_concat(row_start(style) + text, row_start(plain) + text, "\n"@, "\n"@);
}

/// Law: in any style a field header shows the plain header.
pub proof fn field_shows(style: Style, name: Seq<char>, help: Option<Seq<char>>)
    requires
        clean(name),
        clean_opt(help),
    ensures
        stripped(field_rows(style, name, help)) == field_rows(Style { color: false }, name, help),
{
    let plain = Style { color: false };
    codes_show_nothing();
    literals_clean();
    starts_show(style);
    scan_clean("\n"@);
    shows_concat(ansi::CYAN@, Seq::empty(), ansi::BOLD@, Seq::empty());
    assert(Seq::<char>::empty() + Seq::<char>::empty() =~= Seq::<char>::empty());
    let code = ansi::CYAN@ + ansi::BOLD@;
    painted_shows(style, code, name);
    let p = style.painted(code, name);
    let a = row_start(style);
    let ap = row_start(plain);
    shows_concat(a, ap, p, name);
    shows_concat(a + p, ap + name, "\n"@, "\n"@);
    match help {
        Some(h) => {
            painted_shows(style, ansi::DIM@, h);
            let d = style.painted(ansi::DIM@, h);
            shows_concat(a, ap, d, h);
            shows_concat(a + d, ap + h, "\n"@, "\n"@);
            shows_concat(a + p + "\n"@, ap + name + "\n"@, a + d + "\n"@, ap + h + "\n"@);
        },
        None => {},
    }
}

/// Law: in any style the footer of a section shows the plain footer.
pub proof fn footer_shows(style: Style, kind: Item, summary: Seq<char>)
    requires
        clean(summary),
    ensures
        stripped(footer_rows(style, kind, summary)) == footer_rows(
            Style { color: false },
            kind,
            summary,
        ),
{
    let plain = Style { color: false };
    codes_show_nothing();
    literals_clean();
    gutter_shows(style);
    kind_shows(style, kind);
    scan_clean("\n"@);
    scan_clean("  "@);
    scan_clean(glyph::BAR_END@);
    painted_shows(style, kind.code(), summary);
    let p = style.painted(kind.code(), summary);
    shows_concat("  "@, "  "@, glyph::BAR_END@, glyph::BAR_END@);
    shows_concat("  "@ + glyph::BAR_END@, "  "@ + glyph::BAR_END@, "  "@, "  "@);
    let a = "  "@ + glyph::BAR_END@ + "  "@;
    shows_concat(a, a, p, summary);
    shows_concat(a + p, a + summary, "\n"@, "\n"@);
    shows_concat(gutter_row(style), gutter_row(plain), a + p + "\n"@, a + summary + "\n"@);
    shows_concat(
        gutter_row(style) + (a + p + "\n"@),
        gutter_row(plain) + (a + summary + "\n"@),
        "\n"@,
        "\n"@,
    );
}

/// Law: `--no-color` and `NO_COLOR` win over everything, then forcing colour
/// wins over what the stream is.
pub proof fn color_precedence(flag: bool, env: ColorEnv, is_tty: bool)
    ensures
        flag || env.no_color ==> !colored(flag, env, is_tty),
        !flag && !env.no_color && (env.force_color || env.clicolor_force) ==> colored(
            flag,
            env,
            is_tty,
        ),
        !flag && !env.no_color && !env.force_color && !env.clicolor_force ==> colored(
            flag,
            env,
            is_tty,
        ) == is_tty,
{
}

/// Law: paint goes before a text and is taken off behind it, where colours are on;
/// where they are off the text is left alone.
pub proof fn paint_goes_round_the_text(code: Seq<char>, s: Seq<char>)
    ensures
        (Style { color: true }).painted(code, s) == code + s + "\x1b[0m"@,
        (Style { color: false }).painted(code, s) == s,
{
}

/// Law: what is done is green, what warns yellow, what failed red, and what was
/// skipped dim.
pub proof fn items_have_colours()
    ensures
        Item::Done.code() == "\x1b[32m"@,
        Item::Warn.code() == "\x1b[33m"@,
        Item::Fail.code() == "\x1b[31m"@,
        Item::Skip.code() == "\x1b[2m"@,
{
}

/// Law: without colours a section reads like this: a diamond before its title with a
/// bar below, a mark before each item behind the bar, notes two columns further in,
/// and a corner before its summary.
pub proof fn plain_sections_read(title: Seq<char>, note: Seq<char>, text: Seq<char>)
    requires
        note.len() > 0,
    ensures
        ({
            let plain = Style { color: false };
            &&& header_rows(plain, title, Some(note)) == "\n  ◆  "@ + title + "  "@ + note
                + "\n  │\n"@
            &&& header_rows(plain, title, None) == "\n  ◆  "@ + title + "\n  │\n"@
            &&& item_row(plain, Item::Done, title, None) == "  │  ◇ "@ + title + "\n"@
            &&& item_row(plain, Item::Skip, title, None) == "  │  ◇ "@ + title + "\n"@
            &&& item_row(plain, Item::Warn, title, None) == "  │  ⚠ "@ + title + "\n"@
            &&& item_row(plain, Item::Fail, title, Some(note)) == "  │  ✗ "@ + title + "  "@ + note
                + "\n"@
            &&& hint_row(plain, text) == "  │    ↳ "@ + text + "\n"@
            &&& raw_row(plain, text) == "  │  "@ + text + "\n"@
            &&& sub_row(plain, Item::Fail, text) == "  │    ✗ "@ + text + "\n"@
            &&& sub_note_row(plain, text) == "  │    "@ + text + "\n"@
            &&& prompt_text(plain, text) == "  │    "@ + text + " "@
            &&& field_rows(plain, title, Some(note)) == "  │  "@ + title + "\n  │  "@ + note + "\n"@
            &&& field_rows(plain, title, None) == "  │  "@ + title + "\n"@
            &&& footer_rows(plain, Item::Done, text) == "  │\n  └  "@ + text + "\n\n"@
        }),
{
    reveal_strlit("  ");
    reveal_strlit("    ");
    reveal_strlit("\n");
    reveal_strlit(" ");
    reveal_strlit("│");
    reveal_strlit("└");
    reveal_strlit("◆");
    reveal_strlit("◇");
    reveal_strlit("⚠");
    reveal_strlit("✗");
    reveal_strlit("↳");
    reveal_strlit("\n  ◆  ");
    reveal_strlit("\n  │\n");
    reveal_strlit("  │  ◇ ");
    reveal_strlit("  │  ⚠ ");
    reveal_strlit("  │  ✗ ");
    reveal_strlit("  │    ↳ ");
    reveal_strlit("  │  ");
    reveal_strlit("  │    ");
    reveal_strlit("  │    ✗ ");
    reveal_strlit("\n  │  ");
    reveal_strlit("  │\n  └  ");
    reveal_strlit("\n\n");
    let plain = Style { color: false };
    plain_headers(title, note);
    plain_items(title, note);
    assert(hint_row(plain, text) =~= "  │    ↳ "@ + text + "\n"@);
    assert(raw_row(plain, text) =~= "  │  "@ + text + "\n"@);
    assert(sub_row(plain, Item::Fail, text) =~= "  │    ✗ "@ + text + "\n"@);
    assert(sub_note_row(plain, text) =~= "  │    "@ + text + "\n"@);
    assert(prompt_text(plain, text) =~= "  │    "@ + text + " "@);
    assert(field_rows(plain, title, Some(note)) =~= "  │  "@ + title + "\n  │  "@ + note + "\n"@);
    assert(field_rows(plain, title, None) =~= "  │  "@ + title + "\n"@);
    assert(footer_rows(plain, Item::Done, text) =~= "  │\n  └  "@ + text + "\n\n"@);
}

proof fn plain_headers(title: Seq<char>, note: Seq<char>)
    requires
        note.len() > 0,
    ensures
        header_rows(Style { color: false }, title, Some(note)) == "\n  ◆  "@ + title + "  "@ + note
            + "\n  │\n"@,
        header_rows(Style { color: false }, title, None) == "\n  ◆  "@ + title + "\n  │\n"@,
{
    reveal_strlit("  ");
    reveal_strlit("\n");
    reveal_strlit("│");
    reveal_strlit("◆");
    reveal_strlit("\n  ◆  ");
    reveal_strlit("\n  │\n");
    let plain = Style { color: false };
    assert(header_rows(plain, title, Some(note)) =~= "\n  ◆  "@ + title + "  "@ + note
        + "\n  │\n"@);
    assert(header_rows(plain, title, None) =~= "\n  ◆  "@ + title + "\n  │\n"@);
}

proof fn plain_items(title: Seq<char>, note: Seq<char>)
    requires
        note.len() > 0,
    ensures
        ({
            let plain = Style { color: false };
            &&& item_row(plain, Item::Done, title, None) == "  │  ◇ "@ + title + "\n"@
            &&& item_row(plain, Item::Skip, title, None) == "  │  ◇ "@ + title + "\n"@
            &&& item_row(plain, Item::Warn, title, None) == "  │  ⚠ "@ + title + "\n"@
            &&& item_row(plain, Item::Fail, title, Some(note)) == "  │  ✗ "@ + title + "  "@ + note
                + "\n"@
        }),
{
    reveal_strlit("  ");
    reveal_strlit("\n");
    reveal_strlit(" ");
    reveal_strlit("│");
    reveal_strlit("◇");
    reveal_strlit("⚠");
    reveal_strlit("✗");
    reveal_strlit("  │  ◇ ");
    reveal_strlit("  │  ⚠ ");
    reveal_strlit("  │  ✗ ");
    let plain = Style { color: false };
    assert(item_row(plain, Item::Done, title, None) =~= "  │  ◇ "@ + title + "\n"@);
    assert(item_row(plain, Item::Skip, title, None) =~= "  │  ◇ "@ + title + "\n"@);
    assert(item_row(plain, Item::Warn, title, None) =~= "  │  ⚠ "@ + title + "\n"@);
    assert(item_row(plain, Item::Fail, title, Some(note)) =~= "  │  ✗ "@ + title + "  "@ + note
        + "\n"@);
}

/// Law: a line starts with the program's name, and with that of its part where it has
/// one; a mark before the message is painted, and none leaves no gap.
pub proof fn lines_start_with_the_name(
    scope: Scope,
    mark: Seq<char>,
    code: Seq<char>,
    msg: Seq<char>,
    style: Style,
)
    ensures
        scope.0@.len() == 0 ==> scope.prefix_text() == "devme:"@,
        scope.0@.len() > 0 ==> scope.prefix_text() == "devme "@ + scope.0@ + ":"@,
        mark.len() == 0 ==> scope.line_text(mark, code, msg, style) == scope.prefix_text() + " "@
            + msg,
        mark.len() > 0 ==> scope.line_text(mark, code, msg, style) == scope.prefix_text() + " "@
            + style.painted(code, mark) + " "@ + msg,
{
}

/// Law: until it is decided how to show things, they are shown, and without colours;
/// once it is decided, that stays.
pub proof fn nothing_is_hidden_by_default(ui: Ui)
    ensures
        !settled(None).quiet && !settled(None).out.color && !settled(None).err.color,
        settled(Some(ui)) == ui,
{
}

} // verus!
