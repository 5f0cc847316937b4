//! Colours of the dashboard: the two palettes, choosing one by configuration
//! or by the terminal's background, and fitting text to a width.
pub mod laws;

use vstd::prelude::*;
use vstd::string::*;

use crate::lists::{first_index, first_index_at, first_index_none};
use crate::text::{chars_of, contains, find, occurs_at, pieces, same, split, text_of, texts};

verus! {

/// A 24-bit colour.
#[derive(Debug, Clone, Copy, PartialEq, Eq, Structural)]
pub enum Color {
    Rgb(u8, u8, u8),
}

/// A full set of interface colours.
#[derive(Debug, Clone, Copy, PartialEq, Eq, Structural)]
pub struct Palette {
    /// Primary accent. Active markers, focused separators.
    pub accent: Color,
    /// Selected-row background fill.
    pub surface0: Color,
    /// A slightly brighter fill (drag / secondary highlight).
    pub surface1: Color,
    /// Separator rules and section dividers, and the dim active-row fill.
    pub surface_dim: Color,
    /// Dim labels: section headers, placeholders, secondary text.
    pub overlay0: Color,
    /// Unselected row names.
    pub subtext0: Color,
    /// Selected / active row names.
    pub text: Color,
    /// Branch / worktree accents.
    pub mauve: Color,
    pub green: Color,
    pub yellow: Color,
    pub red: Color,
    pub teal: Color,
    pub peach: Color,
    /// Panel background, used behind toasts so they read as opaque.
    pub panel_bg: Color,
}

/// Catppuccin Mocha, the dark palette.
pub open spec fn mocha_palette() -> Palette {
    Palette {
        accent: Color::Rgb(137, 180, 250),
        surface0: Color::Rgb(49, 50, 68),
        surface1: Color::Rgb(69, 71, 90),
        surface_dim: Color::Rgb(30, 30, 46),
        overlay0: Color::Rgb(108, 112, 134),
        subtext0: Color::Rgb(166, 173, 200),
        text: Color::Rgb(205, 214, 244),
        mauve: Color::Rgb(203, 166, 247),
        green: Color::Rgb(166, 227, 161),
        yellow: Color::Rgb(249, 226, 175),
        red: Color::Rgb(243, 139, 168),
        teal: Color::Rgb(148, 226, 213),
        peach: Color::Rgb(250, 179, 135),
        panel_bg: Color::Rgb(24, 24, 37),
    }
}

/// Catppuccin Latte, the light palette.
pub open spec fn latte_palette() -> Palette {
    Palette {
        accent: Color::Rgb(30, 102, 245),
        surface0: Color::Rgb(204, 208, 218),
        surface1: Color::Rgb(188, 192, 204),
        surface_dim: Color::Rgb(220, 224, 232),
        overlay0: Color::Rgb(156, 160, 176),
        subtext0: Color::Rgb(108, 111, 133),
        text: Color::Rgb(76, 79, 105),
        mauve: Color::Rgb(136, 57, 239),
        green: Color::Rgb(64, 160, 43),
        yellow: Color::Rgb(223, 142, 29),
        red: Color::Rgb(210, 15, 57),
        teal: Color::Rgb(23, 146, 153),
        peach: Color::Rgb(254, 100, 11),
        panel_bg: Color::Rgb(239, 241, 245),
    }
}

/// The names that stand for the light palette.
pub open spec fn names_light(name: Seq<char>) -> bool {
    name == "latte"@ || name == "light"@
}

/// The palette shown for a theme name when the terminal is not asked.
pub open spec fn previewed(name: Seq<char>) -> Palette {
    if names_light(name) {
        latte_palette()
    } else {
        mocha_palette()
    }
}

/// The palette for a theme name, where `background` is the terminal's
/// background colour if it told one.
pub open spec fn resolved(name: Seq<char>, background: Option<(u8, u8, u8)>) -> Palette {
    if name == "auto"@ {
        match background {
            Some(bg) => if dark(bg) {
                mocha_palette()
            } else {
                latte_palette()
            },
            None => mocha_palette(),
        }
    } else {
        previewed(name)
    }
}

impl Default for Palette {
    fn default() -> (r: Self)
        ensures
            r == mocha_palette(),
    {
        Palette::mocha()
    }
}

impl Palette {
    /// Catppuccin Mocha, the dark default.
    pub fn mocha() -> (r: Self)
        ensures
            r == mocha_palette(),
    {
        Palette {
            accent: Color::Rgb(137, 180, 250),
            surface0: Color::Rgb(49, 50, 68),
            surface1: Color::Rgb(69, 71, 90),
            surface_dim: Color::Rgb(30, 30, 46),
            overlay0: Color::Rgb(108, 112, 134),
            subtext0: Color::Rgb(166, 173, 200),
            text: Color::Rgb(205, 214, 244),
            mauve: Color::Rgb(203, 166, 247),
            green: Color::Rgb(166, 227, 161),
            yellow: Color::Rgb(249, 226, 175),
            red: Color::Rgb(243, 139, 168),
            teal: Color::Rgb(148, 226, 213),
            peach: Color::Rgb(250, 179, 135),
            panel_bg: Color::Rgb(24, 24, 37),
        }
    }

    /// Catppuccin Latte, for light terminals.
    pub fn latte() -> (r: Self)
        ensures
            r == latte_palette(),
    {
        Palette {
            accent: Color::Rgb(30, 102, 245),
            surface0: Color::Rgb(204, 208, 218),
            surface1: Color::Rgb(188, 192, 204),
            surface_dim: Color::Rgb(220, 224, 232),
            overlay0: Color::Rgb(156, 160, 176),
            subtext0: Color::Rgb(108, 111, 133),
            text: Color::Rgb(76, 79, 105),
            mauve: Color::Rgb(136, 57, 239),
            green: Color::Rgb(64, 160, 43),
            yellow: Color::Rgb(223, 142, 29),
            red: Color::Rgb(210, 15, 57),
            teal: Color::Rgb(23, 146, 153),
            peach: Color::Rgb(254, 100, 11),
            panel_bg: Color::Rgb(239, 241, 245),
        }
    }

    /// Resolves a `tui.theme` value to a palette. `auto` goes by the
    /// terminal's background and falls back to mocha where it is not known.
    pub fn resolve(name: &str, background: Option<(u8, u8, u8)>) -> (r: Self)
        ensures
            r == resolved(name@, background),
    {
        if same(name, "auto") {
            match background {
                Some(bg) => if is_dark(bg) {
                    Palette::mocha()
                } else {
                    Palette::latte()
                },
                None => Palette::mocha(),
            }
        } else {
            Palette::preview(name)
        }
    }

    /// Like [`resolve`](Self::resolve) but for a theme change made while the
    /// dashboard runs, where the terminal cannot be asked: `auto` shows as
    /// mocha.
    pub fn preview(name: &str) -> (r: Self)
        ensures
            r == previewed(name@),
    {
        if same(name, "latte") || same(name, "light") {
            Palette::latte()
        } else {
            Palette::mocha()
        }
    }
}

/// `text` cut to `max` columns, the last of them an ellipsis where something
/// was cut.
pub open spec fn truncated(text: Seq<char>, max: nat) -> Seq<char> {
    if text.len() <= max {
        text
    } else if max == 0 {
        Seq::empty()
    } else {
        text.take(max - 1).push('…')
    }
}

/// A cut text is never wider than it may be, and one that fits is unchanged.
pub proof fn truncated_fits(text: Seq<char>, max: nat)
    ensures
        truncated(text, max).len() <= max,
        truncated(text, max).len() == if text.len() < max { text.len() } else { max },
        truncated(truncated(text, max), max) == truncated(text, max),
{
}

/// Truncates `text` to `max` display columns, appending `…` when clipped; one
/// column per character.
pub fn truncate(text: &str, max: usize) -> (r: String)
    ensures
        r@ == truncated(text@, max as nat),
{
    let v = chars_of(text);
    if v.len() <= max {
        return text.to_owned();
    }
    if max == 0 {
        return String::new();
    }
    let mut r = text_of(&v, 0, max - 1);
    r.push('…');
    assert(v@.subrange(0, max - 1) =~= text@.take(max - 1));
    r
}

/// A background is dark where its luma (Rec. 601, in thousandths) lies below
/// the midpoint of the scale.
pub open spec fn dark(c: (u8, u8, u8)) -> bool {
    299 * c.0 + 587 * c.1 + 114 * c.2 < 128_000
}

/// Perceived luminance test for an `(r, g, b)` background. Dark backgrounds
/// want the Mocha palette; light ones want Latte.
pub fn is_dark(c: (u8, u8, u8)) -> (r: bool)
    ensures
        r == dark(c),
{
    299 * (c.0 as u32) + 587 * (c.1 as u32) + 114 * (c.2 as u32) < 128_000
}

/// Whether the reply read so far from the terminal is complete: a BEL, a
/// backslash that ends an escape, or more bytes than any reply has.
pub open spec fn reply_done(bytes: Seq<u8>) -> bool {
    bytes.len() > 0 && (bytes.last() == 7u8 || (bytes.last() == 92u8 && bytes.len() > 2)
        || bytes.len() > 64)
}

/// Decides, after each byte of an OSC 11 reply, whether to stop reading.
pub fn osc_reply_done(bytes: &Vec<u8>) -> (r: bool)
    ensures
        r == reply_done(bytes@),
{
    let n: usize = bytes.len();
    n > 0 && (bytes[n - 1] == 7u8 || (bytes[n - 1] == 92u8 && n > 2) || n > 64)
}

pub open spec fn is_hex(c: char) -> bool {
    ('0' <= c && c <= '9') || ('a' <= c && c <= 'f') || ('A' <= c && c <= 'F')
}

pub open spec fn hex_digit(c: char) -> int {
    if '0' <= c && c <= '9' {
        c as int - '0' as int
    } else if 'a' <= c && c <= 'f' {
        c as int - 'a' as int + 10
    } else {
        c as int - 'A' as int + 10
    }
}

/// The number that hexadecimal digits write.
pub open spec fn hex_value(s: Seq<char>) -> int
    decreases s.len(),
{
    if s.len() == 0 {
        0
    } else {
        hex_value(s.drop_last()) * 16 + hex_digit(s.last())
    }
}

/// The largest number of `n` hexadecimal digits.
pub open spec fn hex_max(n: nat) -> int
    decreases n,
{
    if n == 0 {
        0
    } else {
        hex_max((n - 1) as nat) * 16 + 15
    }
}

pub open spec fn all_hex(s: Seq<char>) -> bool {
    forall|i: int| 0 <= i < s.len() ==> is_hex(s[i])
}

/// A colour component of one to four hexadecimal digits, scaled so that the
/// largest number of that many digits becomes 255, rounded to nearest.
pub open spec fn scaled(s: Seq<char>) -> Option<int> {
    if 1 <= s.len() <= 4 && all_hex(s) {
        let max = hex_max(s.len());
        Some((hex_value(s) * 255 + max / 2) / max)
    } else {
        None
    }
}

/// The part of `s` before the first BEL or ESC.
pub open spec fn reply_body(s: Seq<char>) -> Seq<char> {
    match first_index(s, |c: char| c == '\u{7}' || c == '\u{1b}') {
        Some(i) => s.take(i),
        None => s,
    }
}

/// The colour of three scaled components.
pub open spec fn colour_of(parts: Seq<Seq<char>>) -> Option<(int, int, int)> {
    if parts.len() >= 3 && scaled(parts[0]) is Some && scaled(parts[1]) is Some && scaled(
        parts[2],
    ) is Some {
        Some((scaled(parts[0])->0, scaled(parts[1])->0, scaled(parts[2])->0))
    } else {
        None
    }
}

/// `i` is the first place of `part` in `s`.
pub open spec fn first_at(s: Seq<char>, part: Seq<char>, i: int) -> bool {
    occurs_at(s, part, i) && forall|j: int| 0 <= j < i ==> !occurs_at(s, part, j)
}

/// What follows the first `part` of `s` up to the reply's end.
pub open spec fn reply_after(s: Seq<char>, part: Seq<char>) -> Seq<char> {
    let i = choose|i: int| first_at(s, part, i);
    reply_body(s.skip(i + part.len()))
}

/// The background colour that an OSC 11 reply tells: `rgb:` and three
/// components between slashes, or else `#` and six digits.
pub open spec fn told_background(reply: Seq<char>) -> Option<(int, int, int)> {
    if contains(reply, "rgb:"@) {
        colour_of(pieces(reply_after(reply, "rgb:"@), '/'))
    } else if contains(reply, "#"@) {
        let body = reply_after(reply, "#"@);
        if body.len() == 6 {
            colour_of(seq![body.subrange(0, 2), body.subrange(2, 4), body.subrange(4, 6)])
        } else {
            None
        }
    } else {
        None
    }
}

/// What `hex_value` of at most four digits is bounded by.
proof fn hex_bounds(s: Seq<char>)
    requires
        all_hex(s),
    ensures
        0 <= hex_value(s) <= hex_max(s.len()),
    decreases s.len(),
{
    if s.len() > 0 {
        assert(is_hex(s.last()));
        assert forall|i: int| 0 <= i < s.drop_last().len() implies is_hex(s.drop_last()[i]) by {
            assert(is_hex(s[i]));
        }
        hex_bounds(s.drop_last());
    }
}

proof fn hex_max_values()
    ensures
        hex_max(1) == 0xf,
        hex_max(2) == 0xff,
        hex_max(3) == 0xfff,
        hex_max(4) == 0xffff,
{
    reveal_with_fuel(hex_max, 5);
}

/// Scales one colour component to 8 bits.
pub fn scale_hex(component: &str) -> (r: Option<u8>)
    ensures
        match r {
            Some(b) => scaled(component@) == Some(b as int),
            None => scaled(component@) is None,
        },
{
    let v = chars_of(component);
    if v.len() == 0 || v.len() > 4 {
        return None;
    }
    proof {
        hex_max_values();
    }
    let mut value: u32 = 0;
    let mut max: u32 = 0;
    let mut i: usize = 0;
    while i < v.len()
        invariant
            i <= v.len() <= 4,
            v@ == component@,
            all_hex(v@.take(i as int)),
            value == hex_value(v@.take(i as int)),
            max == hex_max(i as nat),
            value <= max,
            hex_max(1) == 0xf,
            hex_max(2) == 0xff,
            hex_max(3) == 0xfff,
            hex_max(4) == 0xffff,
        decreases v.len() - i,
    {
        let c = v[i];
        let d: u32 = if '0' <= c && c <= '9' {
            c as u32 - 48
        } else if 'a' <= c && c <= 'f' {
            c as u32 - 87
        } else if 'A' <= c && c <= 'F' {
            c as u32 - 55
        } else {
            assert(!is_hex(component@[i as int]));
            return None;
        };
        proof {
            let t = v@.take(i + 1);
            assert(t.drop_last() =~= v@.take(i as int));
            assert forall|j: int| 0 <= j < t.len() implies is_hex(t[j]) by {
                if j < i {
                    assert(is_hex(v@.take(i as int)[j]));
                }
            }
            assert(i == 0 || i == 1 || i == 2 || i == 3);
            assert(hex_max((i + 1) as nat) == hex_max(i as nat) * 16 + 15);
        }
        value = value * 16 + d;
        max = max * 16 + 15;
        i = i + 1;
    }
    assert(v@.take(i as int) =~= component@);
    let r: u32 = (value * 255 + max / 2) / max;
    proof {
        let (x, m) = (value as int, max as int);
        assert((x * 255 + m / 2) / m <= 255) by (nonlinear_arith)
            requires
                0 <= x <= m,
                m > 0,
        ;
    }
    Some(r as u8)
}

fn body_of(rest: &Vec<char>, from: usize) -> (r: String)
    requires
        from <= rest@.len(),
    ensures
        r@ == reply_body(rest@.skip(from as int)),
{
    let ghost s = rest@.skip(from as int);
    let ghost p = |c: char| c == '\u{7}' || c == '\u{1b}';
    let mut i: usize = from;
    while i < rest.len() && rest[i] != '\u{7}' && rest[i] != '\u{1b}'
        invariant
            from <= i <= rest@.len(),
            s == rest@.skip(from as int),
            forall|j: int| 0 <= j < i - from ==> s[j] != '\u{7}' && s[j] != '\u{1b}',
        decreases rest.len() - i,
    {
        i = i + 1;
    }
    let r = text_of(rest, from, i);
    proof {
        if i < rest.len() {
            first_index_at(s, p, i - from);
            assert(r@ =~= s.take(i - from));
        } else {
            first_index_none(s, p);
            assert(r@ =~= s);
        }
    }
    r
}

proof fn first_at_unique(s: Seq<char>, part: Seq<char>, i: int)
    requires
        first_at(s, part, i),
    ensures
        reply_after(s, part) == reply_body(s.skip(i + part.len())),
{
    let k = choose|k: int| first_at(s, part, k);
    assert(first_at(s, part, k));
    if k < i {
        assert(!occurs_at(s, part, k));
    }
    if i < k {
        assert(!occurs_at(s, part, i));
    }
}

/// Parses the `rgb:rrrr/gggg/bbbb` (or `#rrggbb`) value out of an OSC 11
/// reply. Components may be one to four hexadecimal digits each; they are
/// scaled to 8 bits.
pub fn parse_osc_background(reply: &str) -> (r: Option<(u8, u8, u8)>)
    ensures
        match r {
            Some(c) => told_background(reply@) == Some((c.0 as int, c.1 as int, c.2 as int)),
            None => told_background(reply@) is None,
        },
{
    let v = chars_of(reply);
    let len: usize = v.len();
    match find(&v, &chars_of("rgb:")) {
        Some(i) => {
            proof {
                reveal_strlit("rgb:");
                assert(first_at(reply@, "rgb:"@, i as int));
                first_at_unique(reply@, "rgb:"@, i as int);
                assert(i + 4 <= len);
            }
            let body = body_of(&v, i + 4);
            let parts = split(body.as_str(), '/');
            assert(forall|k: int| 0 <= k < parts@.len() ==> texts(parts@)[k] == parts@[k]@);
            if parts.len() < 3 {
                return None;
            }
            colour(parts[0].as_str(), parts[1].as_str(), parts[2].as_str())
        },
        None => match find(&v, &chars_of("#")) {
            Some(i) => {
                proof {
                    reveal_strlit("#");
                    assert(first_at(reply@, "#"@, i as int));
                    first_at_unique(reply@, "#"@, i as int);
                    assert(i + 1 <= len);
                }
                let body = chars_of(body_of(&v, i + 1).as_str());
                if body.len() != 6 {
                    return None;
                }
                colour(
                    text_of(&body, 0, 2).as_str(),
                    text_of(&body, 2, 4).as_str(),
                    text_of(&body, 4, 6).as_str(),
                )
            },
            None => None,
        },
    }
}

fn colour(red: &str, green: &str, blue: &str) -> (r: Option<(u8, u8, u8)>)
    ensures
        forall|parts: Seq<Seq<char>>|
            parts.len() >= 3 && parts[0] == red@ && parts[1] == green@ && parts[2] == blue@ ==> (
            match r {
                Some(c) => (#[trigger] colour_of(parts)) == Some(
                    (c.0 as int, c.1 as int, c.2 as int),
                ),
                None => colour_of(parts) is None,
            }),
{
    match (scale_hex(red), scale_hex(green), scale_hex(blue)) {
        (Some(r), Some(g), Some(b)) => Some((r, g, b)),
        _ => None,
    }
}

} // verus!
