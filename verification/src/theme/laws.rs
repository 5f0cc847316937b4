//! What holds of the palettes, and of the background that a terminal reports.
use vstd::prelude::*;

use crate::lists::{first_index_at, first_index_none};
use crate::text::laws::{free_of, pieces_stand_between_separators};
use crate::text::{contains, occurs_at, pieces};
use crate::theme::{
    all_hex, dark, first_at, hex_digit, hex_max, hex_value, is_hex, latte_palette, mocha_palette,
    previewed, reply_after, reply_body, reply_done, resolved, scaled, told_background, truncated,
    Color,
};

verus! {

/// The three parts of a colour.
pub open spec fn parts(c: Color) -> (u8, u8, u8) {
    match c {
        Color::Rgb(r, g, b) => (r, g, b),
    }
}

/// Law: a background is dark below the middle grey, as the eye weighs its parts;
/// black is and white is not, and a background that is brighter in every part
/// than a light one is light.
pub proof fn darkness_is_weighed(r: u8, g: u8, b: u8, r2: u8, g2: u8, b2: u8)
    ensures
        dark((r, g, b)) <==> 299 * r + 587 * g + 114 * b < 128 * 1000,
        dark((0, 0, 0)),
        !dark((255, 255, 255)),
        !dark((r, g, b)) && r <= r2 && g <= g2 && b <= b2 ==> !dark((r2, g2, b2)),
        dark((127, 127, 127)) && !dark((128, 128, 128)),
{
}

/// Law: the dark palette writes light text on dark panels, and the light palette
/// dark text on light ones.
pub proof fn palettes_can_be_read()
    ensures
        dark(parts(mocha_palette().panel_bg)) && dark(parts(mocha_palette().surface0)),
        !dark(parts(mocha_palette().text)) && !dark(parts(mocha_palette().subtext0)),
        !dark(parts(latte_palette().panel_bg)) && !dark(parts(latte_palette().surface0)),
        dark(parts(latte_palette().text)) && dark(parts(latte_palette().subtext0)),
{
}

/// Law: the theme that is named is used: latte and light give the light palette; auto
/// goes by the background, and is dark where that is not known; every other name
/// gives the dark one.
pub proof fn the_named_theme_is_used(name: Seq<char>, background: Option<(u8, u8, u8)>)
    ensures
        name == "latte"@ || name == "light"@ ==> resolved(name, background) == latte_palette()
            && previewed(name) == latte_palette(),
        name == "auto"@ ==> resolved(name, background) == if background is Some && !dark(
            background->0,
        ) {
            latte_palette()
        } else {
            mocha_palette()
        },
        name != "latte"@ && name != "light"@ ==> previewed(name) == mocha_palette(),
        name != "latte"@ && name != "light"@ && name != "auto"@ ==> resolved(name, background)
            == mocha_palette(),
{
    reveal_strlit("latte");
    reveal_strlit("light");
    reveal_strlit("auto");
    assert("latte"@[0] == 'l' && "light"@[0] == 'l' && "auto"@[0] == 'a');
}

/// Law: text that fits is left alone; text that does not is cut to the width, its
/// last column an ellipsis, and what stands before is how the text begins.
pub proof fn long_text_is_cut(text: Seq<char>, max: nat)
    ensures
        text.len() <= max ==> truncated(text, max) == text,
        text.len() > max && max > 0 ==> truncated(text, max).len() == max && truncated(
            text,
            max,
        ).last() == '…' && truncated(text, max).drop_last() == text.take(max - 1),
        text.len() > 0 && max == 0 ==> truncated(text, max).len() == 0,
{
    if text.len() > max && max > 0 {
        assert(truncated(text, max).drop_last() =~= text.take(max - 1));
    }
}

/// Law: a reply is complete with a bell, with the backslash that ends an escape, or
/// when it is longer than any reply.
pub proof fn replies_end(bytes: Seq<u8>, more: u8)
    ensures
        !reply_done(Seq::empty()),
        reply_done(bytes.push(7)),
        reply_done(bytes.push(92)) <==> bytes.len() >= 2,
        bytes.len() >= 64 ==> reply_done(bytes.push(more)),
        bytes.len() < 64 && more != 7 && more != 92 ==> !reply_done(bytes.push(more)),
{
}

proof fn maxima()
    ensures
        hex_max(0) == 0,
        hex_max(1) == 15,
        hex_max(2) == 255,
        hex_max(3) == 4095,
        hex_max(4) == 65535,
{
    reveal_with_fuel(hex_max, 5);
}

/// Law: a part of a colour is one to four hexadecimal digits, and nothing else is
/// one. However many digits it has, it is brought to the range of a byte: to the
/// nearest, so that all digits f are 255; two digits are taken as they are.
pub proof fn parts_are_brought_to_a_byte(s: Seq<char>, a: char, b: char)
    ensures
        scaled(s) is Some <==> 1 <= s.len() <= 4 && forall|i: int|
            0 <= i < s.len() ==> is_hex(#[trigger] s[i]),
        scaled(s) matches Some(v) ==> {
            let max = if s.len() == 1 {
                15int
            } else if s.len() == 2 {
                255
            } else if s.len() == 3 {
                4095
            } else {
                65535
            };
            2 * (v * max - 255 * hex_value(s)) <= max && 2 * (255 * hex_value(s) - v * max) <= max
        },
        is_hex(a) && is_hex(b) ==> scaled(seq![a, b]) == Some(16 * hex_digit(a) + hex_digit(b)),
        is_hex(a) ==> scaled(seq![a]) == Some(17 * hex_digit(a)),
{
    maxima();
    reveal_with_fuel(hex_value, 3);
    if scaled(s) is Some {
        let v = hex_value(s);
        let max = hex_max(s.len());
        let x = v * 255 + max / 2;
        let q = x / max;
        vstd::arithmetic::div_mod::lemma_fundamental_div_mod(x, max);
        vstd::arithmetic::div_mod::lemma_mod_bound(x, max);
        assert(q * max == max * q) by (nonlinear_arith);
    }
    let two = seq![a, b];
    assert(two.drop_last() =~= seq![a]);
    assert(seq![a].drop_last() =~= Seq::<char>::empty());
    if is_hex(a) && is_hex(b) {
        assert forall|i: int| 0 <= i < two.len() implies is_hex(two[i]) by {}
        assert(all_hex(two));
        assert(two.len() == 2);
    }
    if is_hex(a) {
        assert(all_hex(seq![a]));
        assert(seq![a].len() == 1);
    }
}

/// Law: the value of hexadecimal digits: each counts sixteen times what stands behind
/// it; letters count from ten, in either case.
pub proof fn digits_count_sixteen(s: Seq<char>, c: char)
    ensures
        hex_value(Seq::empty()) == 0,
        hex_value(s.push(c)) == 16 * hex_value(s) + hex_digit(c),
        '0' <= c && c <= '9' ==> hex_digit(c) == c as int - 48,
        'a' <= c && c <= 'f' ==> hex_digit(c) == c as int - 87,
        'A' <= c && c <= 'F' ==> hex_digit(c) == c as int - 55,
        is_hex(c) <==> ('0' <= c && c <= '9') || ('a' <= c && c <= 'f') || ('A' <= c && c <= 'F'),
{
    assert(s.push(c).drop_last() =~= s);
}

/// A part of a colour as a terminal reports it.
pub open spec fn is_part(s: Seq<char>) -> bool {
    1 <= s.len() <= 4 && forall|i: int| 0 <= i < s.len() ==> is_hex(#[trigger] s[i])
}

proof fn found_first(before: Seq<char>, mark: Seq<char>, rest: Seq<char>)
    requires
        mark.len() > 0,
        forall|j: int| 0 <= j < before.len() ==> !#[trigger] occurs_at(
            before + mark + rest,
            mark,
            j,
        ),
    ensures
        contains(before + mark + rest, mark),
        reply_after(before + mark + rest, mark) == reply_body(rest),
{
    let s = before + mark + rest;
    let n = before.len() as int;
    assert(s.subrange(n, n + mark.len()) =~= mark);
    assert(occurs_at(s, mark, n));
    assert(first_at(s, mark, n));
    let i = choose|i: int| first_at(s, mark, i);
    assert(i == n) by {
        if i < n {
            assert(0 <= i);
            assert(!occurs_at(s, mark, i));
        } else if n < i {
            assert(!occurs_at(s, mark, n));
        }
    }
    assert(s.skip(n + mark.len()) =~= rest);
}

proof fn body_before_the_end(body: Seq<char>, end: char, junk: Seq<char>)
    requires
        end == '\u{7}' || end == '\u{1b}',
        free_of(body, '\u{7}'),
        free_of(body, '\u{1b}'),
    ensures
        reply_body(body + seq![end] + junk) == body,
        reply_body(body) == body,
{
    let s = body + seq![end] + junk;
    let p = |c: char| c == '\u{7}' || c == '\u{1b}';
    assert forall|j: int| 0 <= j < body.len() implies !p(s[j]) by {
        assert(s[j] == body[j]);
    }
    assert(s[body.len() as int] == end);
    first_index_at(s, p, body.len() as int);
    assert(s.take(body.len() as int) =~= body);
    assert forall|j: int| 0 <= j < body.len() implies !p(body[j]) by {}
    first_index_none(body, p);
}

/// Law: a terminal that reports its background as three parts between slashes, ended
/// by a bell or an escape, is understood: each part is brought to a byte.
pub proof fn backgrounds_in_parts_are_read(
    before: Seq<char>,
    r: Seq<char>,
    g: Seq<char>,
    b: Seq<char>,
    end: char,
    junk: Seq<char>,
)
    requires
        is_part(r),
        is_part(g),
        is_part(b),
        end == '\u{7}' || end == '\u{1b}',
        ({
            let rest = r + seq!['/'] + (g + seq!['/'] + b) + seq![end] + junk;
            forall|j: int|
                0 <= j < before.len() ==> !#[trigger] occurs_at(
                    before + "rgb:"@ + rest,
                    "rgb:"@,
                    j,
                )
        }),
    ensures
        told_background(
            before + "rgb:"@ + (r + seq!['/'] + (g + seq!['/'] + b) + seq![end] + junk),
        ) == Some((scaled(r)->0, scaled(g)->0, scaled(b)->0)),
{
    reveal_strlit("rgb:");
    let body = r + seq!['/'] + (g + seq!['/'] + b);
    let rest = body + seq![end] + junk;
    found_first(before, "rgb:"@, rest);
    assert forall|i: int| 0 <= i < body.len() implies #[trigger] body[i] != '\u{7}' && body[i]
        != '\u{1b}' by {
        if i < r.len() {
            assert(is_hex(r[i]));
        } else if i == r.len() {
        } else if i < r.len() + 1 + g.len() {
            assert(is_hex(g[i - r.len() - 1]));
        } else if i > r.len() + 1 + g.len() {
            assert(is_hex(b[i - r.len() - 2 - g.len()]));
        }
    }
    body_before_the_end(body, end, junk);
    no_slash(r);
    no_slash(g);
    no_slash(b);
    pieces_stand_between_separators(r, '/', g + seq!['/'] + b);
    pieces_stand_between_separators(g, '/', b);
    pieces_stand_between_separators(b, '/', Seq::empty());
    assert(pieces(body, '/') =~= seq![r, g, b]);
}

proof fn no_slash(s: Seq<char>)
    requires
        is_part(s),
    ensures
        free_of(s, '/'),
{
    assert forall|i: int| 0 <= i < s.len() implies #[trigger] s[i] != '/' by {
        assert(is_hex(s[i]));
    }
}

/// Law: a terminal that reports its background as a hash and six digits is understood
/// too: two digits for each part.
pub proof fn backgrounds_behind_a_hash_are_read(
    before: Seq<char>,
    r: Seq<char>,
    g: Seq<char>,
    b: Seq<char>,
    end: char,
    junk: Seq<char>,
)
    requires
        is_part(r) && r.len() == 2,
        is_part(g) && g.len() == 2,
        is_part(b) && b.len() == 2,
        end == '\u{7}' || end == '\u{1b}',
        free_of(before, '#'),
        !contains(before + "#"@ + (r + g + b + seq![end] + junk), "rgb:"@),
    ensures
        told_background(before + "#"@ + (r + g + b + seq![end] + junk)) == Some(
            (scaled(r)->0, scaled(g)->0, scaled(b)->0),
        ),
{
    reveal_strlit("#");
    assert("#"@ =~= seq!['#']);
    let body = r + g + b;
    let rest = body + seq![end] + junk;
    let s = before + "#"@ + rest;
    assert forall|j: int| 0 <= j < before.len() implies !#[trigger] occurs_at(s, "#"@, j) by {
        assert(s.subrange(j, j + 1)[0] == before[j]);
        assert(seq!['#'][0] == '#');
    }
    found_first(before, "#"@, rest);
    assert forall|i: int| 0 <= i < body.len() implies #[trigger] body[i] != '\u{7}' && body[i]
        != '\u{1b}' by {
        if i < 2 {
            assert(is_hex(r[i]));
        } else if i < 4 {
            assert(is_hex(g[i - 2]));
        } else {
            assert(is_hex(b[i - 4]));
        }
    }
    body_before_the_end(body, end, junk);
    assert(body.subrange(0, 2) =~= r);
    assert(body.subrange(2, 4) =~= g);
    assert(body.subrange(4, 6) =~= b);
}

/// Law: a reply that names no colour tells no background.
pub proof fn other_replies_tell_nothing(reply: Seq<char>)
    requires
        !contains(reply, "rgb:"@),
        !contains(reply, "#"@),
    ensures
        told_background(reply) is None,
{
}

} // verus!
