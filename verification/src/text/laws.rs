//! What holds of splitting, joining, trimming, counting and ordering text.
use vstd::prelude::*;

use crate::text::{
    all_digits, base_name, chomped, components, contains, counting, decimal, digits_value,
    extension, first_line, has_extension, is_digit, is_space, joined, joined_path, lines_of,
    lower_char, lowered, occurs_at, parsed, pieces, pieces_nonempty, precedes, repeated, replaced,
    same_path, signed_decimal, trimmed, trimmed_end, trimmed_end_of, trimmed_start, unsigned_part,
    words_of,
};

verus! {

/// No character of `s` is `c`.
pub open spec fn free_of(s: Seq<char>, c: char) -> bool {
    forall|i: int| 0 <= i < s.len() ==> #[trigger] s[i] != c
}

// ── splitting ───────────────────────────────────────────────────────────

/// Law: a text without the separator is one piece, and a text with one is the
/// pieces of what stands before it, followed by those of what stands behind.
pub proof fn pieces_stand_between_separators(a: Seq<char>, sep: char, b: Seq<char>)
    ensures
        free_of(a, sep) ==> pieces(a, sep) == seq![a],
        pieces(a + seq![sep] + b, sep) == pieces(a, sep) + pieces(b, sep),
    decreases b.len(),
{
    if free_of(a, sep) {
        one_piece(a, sep);
    }
    let s = a + seq![sep] + b;
    pieces_nonempty(a, sep);
    pieces_nonempty(b, sep);
    if b.len() == 0 {
        assert(s.drop_last() =~= a);
        assert(s.last() == sep);
        assert(pieces(s, sep) =~= pieces(a, sep) + pieces(b, sep));
    } else {
        let c = b.drop_last();
        pieces_stand_between_separators(a, sep, c);
        pieces_nonempty(c, sep);
        assert(s.drop_last() =~= a + seq![sep] + c);
        assert(s.last() == b.last());
        let whole = pieces(a, sep) + pieces(c, sep);
        assert(whole.last() == pieces(c, sep).last());
        if b.last() == sep {
            assert(pieces(s, sep) =~= pieces(a, sep) + pieces(b, sep));
        } else {
            assert(whole.drop_last() =~= pieces(a, sep) + pieces(c, sep).drop_last());
            assert(pieces(s, sep) =~= pieces(a, sep) + pieces(b, sep));
        }
    }
}

proof fn one_piece(s: Seq<char>, sep: char)
    requires
        free_of(s, sep),
    ensures
        pieces(s, sep) == seq![s],
    decreases s.len(),
{
    if s.len() > 0 {
        let t = s.drop_last();
        assert forall|i: int| 0 <= i < t.len() implies #[trigger] t[i] != sep by {
            assert(t[i] == s[i]);
        }
        one_piece(t, sep);
        assert(s[s.len() - 1] != sep);
        assert(t.push(s.last()) =~= s);
        assert(pieces(s, sep) =~= seq![s]);
    } else {
        assert(s =~= Seq::empty());
    }
}

/// Law: the pieces of a text hold no separator, and joined with it they are the
/// text again.
pub proof fn pieces_join_to_the_text(s: Seq<char>, sep: char)
    ensures
        joined(pieces(s, sep), seq![sep]) == s,
        forall|i: int| 0 <= i < pieces(s, sep).len() ==> free_of(#[trigger] pieces(s, sep)[i], sep),
    decreases s.len(),
{
    if s.len() > 0 {
        let t = s.drop_last();
        pieces_join_to_the_text(t, sep);
        pieces_nonempty(t, sep);
        let before = pieces(t, sep);
        let all = pieces(s, sep);
        assert(t.push(s.last()) =~= s);
        if s.last() == sep {
            assert(all.drop_last() =~= before);
            assert(joined(all, seq![sep]) =~= s);
        } else {
            assert(all.drop_last() =~= before.drop_last());
            assert(before.drop_last().push(before.last()) =~= before);
            if all.len() > 1 {
                assert(joined(before, seq![sep]) == joined(before.drop_last(), seq![sep])
                    + seq![sep] + before.last());
            } else {
                assert(before[0] == before.last());
                assert(all[0] == before.last().push(s.last()));
            }
            assert(joined(all, seq![sep]) =~= s);
            assert forall|i: int| 0 <= i < all.len() implies free_of(#[trigger] all[i], sep) by {
                if i < all.len() - 1 {
                    assert(all[i] == before[i]);
                } else {
                    assert(free_of(before[before.len() - 1], sep));
                }
            }
        }
    } else {
        assert(s =~= Seq::empty());
        assert(pieces(s, sep) =~= seq![s]);
    }
}

/// Law: joining puts the separator between neighbours and nowhere else.
pub proof fn joining_puts_separators_between(
    parts: Seq<Seq<char>>,
    part: Seq<char>,
    sep: Seq<char>,
)
    ensures
        joined(Seq::empty(), sep) == Seq::<char>::empty(),
        joined(seq![part], sep) == part,
        parts.len() > 0 ==> joined(parts.push(part), sep) == joined(parts, sep) + sep + part,
{
    assert(parts.push(part).drop_last() =~= parts);
}

/// Law: a line ends at a newline, which may have a carriage return before it; the
/// last line needs none; and no empty line is made up at the end.
pub proof fn lines_end_at_newlines(line: Seq<char>, rest: Seq<char>)
    requires
        free_of(line, '\n'),
    ensures
        lines_of(Seq::empty()) == Seq::<Seq<char>>::empty(),
        line.len() > 0 ==> lines_of(line) == seq![line],
        lines_of(line + seq!['\n'] + rest) == seq![chomped(line)] + lines_of(rest),
        first_line(line) == line,
        first_line(line + seq!['\n'] + rest) == chomped(line),
        chomped(line + seq!['\r']) == line,
        line.len() == 0 || line.last() != '\r' ==> chomped(line) == line,
{
    pieces_stand_between_separators(line, '\n', rest);
    pieces_nonempty(rest, '\n');
    let s = line + seq!['\n'] + rest;
    let p = pieces(s, '\n');
    let q = pieces(rest, '\n');
    assert(p =~= seq![line] + q);
    assert(p.last() == q.last());
    let f = |l: Seq<char>| chomped(l);
    assert(p.drop_last() =~= seq![line] + q.drop_last());
    assert(p.drop_last().map_values(f) =~= seq![chomped(line)] + q.drop_last().map_values(f));
    assert(lines_of(s) =~= seq![chomped(line)] + lines_of(rest));
    assert(p[0] == line);
    assert((line + seq!['\r']).drop_last() =~= line);
    if line.len() > 0 {
        assert(pieces(line, '\n').drop_last().map_values(f) =~= Seq::<Seq<char>>::empty());
        assert(lines_of(line) =~= seq![line]);
    }
    assert(pieces(Seq::<char>::empty(), '\n').drop_last().map_values(f) =~= Seq::<
        Seq<char>,
    >::empty());
}

/// `s` has characters, and none of them is white space.
pub open spec fn is_word(s: Seq<char>) -> bool {
    s.len() > 0 && forall|i: int| 0 <= i < s.len() ==> !is_space(#[trigger] s[i])
}

/// Law: the words of a text are what stands between white space. A word alone is
/// one, and a text with a space in it has the words of both sides.
pub proof fn words_stand_between_spaces(a: Seq<char>, space: char, b: Seq<char>)
    requires
        is_space(space),
    ensures
        is_word(a) ==> words_of(a) == seq![a],
        words_of(Seq::empty()) == Seq::<Seq<char>>::empty(),
        words_of(a + seq![space] + b) == words_of(a) + words_of(b),
    decreases b.len(),
{
    if is_word(a) {
        one_word(a);
    }
    let s = a + seq![space] + b;
    if b.len() == 0 {
        assert(s.drop_last() =~= a);
        assert(s.last() == space);
        assert(words_of(s) =~= words_of(a) + words_of(b));
    } else {
        let c = b.drop_last();
        words_stand_between_spaces(a, space, c);
        assert(s.drop_last() =~= a + seq![space] + c);
        assert(s.last() == b.last());
        if b.len() > 1 {
            assert(s[s.len() - 2] == b[b.len() - 2]);
            if !is_space(b[b.len() - 2]) {
                has_words(c);
                assert((words_of(a) + words_of(c)).last() == words_of(c).last());
                assert((words_of(a) + words_of(c)).drop_last() =~= words_of(a)
                    + words_of(c).drop_last());
            }
        } else {
            assert(s[s.len() - 2] == space);
        }
        assert(words_of(s) =~= words_of(a) + words_of(b));
    }
}

proof fn has_words(s: Seq<char>)
    requires
        s.len() > 0,
        !is_space(s.last()),
    ensures
        words_of(s).len() > 0,
{
}

proof fn one_word(s: Seq<char>)
    requires
        is_word(s),
    ensures
        words_of(s) == seq![s],
    decreases s.len(),
{
    let t = s.drop_last();
    assert(!is_space(s[s.len() - 1]));
    if s.len() == 1 {
        assert(words_of(t) =~= Seq::<Seq<char>>::empty());
        assert(s =~= seq![s.last()]);
        assert(words_of(s) =~= seq![s]);
    } else {
        assert forall|i: int| 0 <= i < t.len() implies !is_space(#[trigger] t[i]) by {
            assert(t[i] == s[i]);
        }
        one_word(t);
        assert(!is_space(s[s.len() - 2]));
        assert(t.push(s.last()) =~= s);
        assert(words_of(s) =~= seq![s]);
    }
}

// ── trimming ────────────────────────────────────────────────────────────

/// Every character of `s` is white space.
pub open spec fn blank(s: Seq<char>) -> bool {
    forall|i: int| 0 <= i < s.len() ==> is_space(#[trigger] s[i])
}

/// Law: trimming takes away white space at both ends, all of it and nothing
/// else.
pub proof fn trimming_takes_the_ends(s: Seq<char>)
    ensures
        ({
            let t = trimmed(s);
            &&& t.len() > 0 ==> !is_space(t[0]) && !is_space(t.last())
            &&& exists|i: int|
                0 <= i <= s.len() - t.len() && #[trigger] s.subrange(i, i + t.len()) == t && blank(
                    s.take(i),
                ) && blank(s.skip(i + t.len()))
        }),
{
    start_is_taken(s);
    let a = trimmed_start(s);
    end_is_taken(a);
    let t = trimmed_end(a);
    let i = s.len() - a.len();
    assert(s.subrange(i, i + t.len()) =~= t) by {
        assert(a =~= s.skip(i));
        assert(t =~= a.take(t.len() as int));
    }
    assert(blank(s.skip(i + t.len()))) by {
        assert forall|j: int| 0 <= j < s.skip(i + t.len()).len() implies is_space(
            #[trigger] s.skip(i + t.len())[j],
        ) by {
            assert(a.skip(t.len() as int)[j] == s.skip(i + t.len())[j]);
        }
    }
    if t.len() > 0 {
        assert(a.take(t.len() as int)[0] == a[0]);
        assert(t[0] == a[0]);
    }
    assert(trimmed(s) == t);
    assert(blank(s.take(i)));
}

proof fn start_is_taken(s: Seq<char>)
    ensures
        trimmed_start(s).len() <= s.len(),
        trimmed_start(s) == s.skip(s.len() - trimmed_start(s).len()),
        blank(s.take(s.len() - trimmed_start(s).len())),
        trimmed_start(s).len() > 0 ==> !is_space(trimmed_start(s)[0]),
    decreases s.len(),
{
    if s.len() > 0 && is_space(s[0]) {
        let r = s.skip(1);
        start_is_taken(r);
        let n = trimmed_start(s).len() as int;
        assert(r.skip(r.len() - n) =~= s.skip(s.len() - n));
        assert forall|i: int| 0 <= i < s.take(s.len() - n).len() implies is_space(
            #[trigger] s.take(s.len() - n)[i],
        ) by {
            if i > 0 {
                assert(r.take(r.len() - n)[i - 1] == s.take(s.len() - n)[i]);
            }
        }
    } else {
        assert(s.skip(0) =~= s);
    }
}

proof fn end_is_taken(s: Seq<char>)
    ensures
        trimmed_end(s).len() <= s.len(),
        trimmed_end(s) == s.take(trimmed_end(s).len() as int),
        blank(s.skip(trimmed_end(s).len() as int)),
        trimmed_end(s).len() > 0 ==> !is_space(trimmed_end(s).last()),
    decreases s.len(),
{
    if s.len() > 0 && is_space(s.last()) {
        let r = s.drop_last();
        end_is_taken(r);
        let n = trimmed_end(s).len() as int;
        assert(r.take(n) =~= s.take(n));
        assert forall|i: int| 0 <= i < s.skip(n).len() implies is_space(#[trigger] s.skip(n)[i]) by {
            if i < s.skip(n).len() - 1 {
                assert(r.skip(n)[i] == s.skip(n)[i]);
            }
        }
    } else {
        assert(s.take(s.len() as int) =~= s);
    }
}

/// Law: trimming one character from the end takes its last run away, and nothing
/// else.
pub proof fn trimming_takes_a_run(s: Seq<char>, c: char)
    ensures
        ({
            let t = trimmed_end_of(s, c);
            &&& t.len() <= s.len()
            &&& t == s.take(t.len() as int)
            &&& t.len() == 0 || t.last() != c
            &&& forall|i: int| t.len() <= i < s.len() ==> #[trigger] s[i] == c
        }),
    decreases s.len(),
{
    if s.len() > 0 && s.last() == c {
        let r = s.drop_last();
        trimming_takes_a_run(r, c);
        let n = trimmed_end_of(s, c).len() as int;
        assert(r.take(n) =~= s.take(n));
        assert forall|i: int| n <= i < s.len() implies #[trigger] s[i] == c by {
            if i < s.len() - 1 {
                assert(r[i] == s[i]);
            }
        }
    } else {
        assert(s.take(s.len() as int) =~= s);
    }
}

// ── numbers ─────────────────────────────────────────────────────────────

/// Law: numbers are written in the decimal system: one digit below ten, and
/// above that the digits of the tenth part with the last digit behind. There
/// are no leading zeros, and a negative number has a minus sign before it.
pub proof fn numbers_are_decimal(n: nat, d: nat)
    requires
        d < 10,
    ensures
        decimal(d).len() == 1 && decimal(d)[0] as int == '0' as int + d,
        n > 0 ==> decimal(10 * n + d) == decimal(n) + decimal(d),
        n > 0 ==> decimal(n)[0] != '0',
        signed_decimal(n as int) == decimal(n),
        n > 0 ==> signed_decimal(-n) == seq!['-'] + decimal(n),
    decreases n,
{
    if n > 0 {
        let m = 10 * n + d;
        assert(m / 10 == n && m % 10 == d);
        assert(decimal(m) =~= decimal(n) + decimal(d));
        if n >= 10 {
            numbers_are_decimal(n / 10, d);
            assert(decimal(n)[0] == decimal(n / 10)[0]);
            has_digits(n / 10);
        }
    }
}

proof fn has_digits(n: nat)
    ensures
        decimal(n).len() > 0,
        all_digits(decimal(n)),
        digits_value(decimal(n)) == n,
    decreases n,
{
    reveal_with_fuel(digits_value, 2);
    let d = decimal(n);
    if n < 10 {
        assert(d.drop_last() =~= Seq::<char>::empty());
    } else {
        has_digits(n / 10);
        assert(d.drop_last() =~= decimal(n / 10));
        assert forall|i: int| 0 <= i < d.len() implies is_digit(#[trigger] d[i]) by {
            if i < d.len() - 1 {
                assert(d[i] == decimal(n / 10)[i]);
            }
        }
    }
}

/// Law: a number reads back as it was written, with or without a plus sign, as
/// long as it is not too large; and nothing but digits reads as a number.
pub proof fn numbers_read_back(n: nat, max: int, s: Seq<char>)
    ensures
        parsed(decimal(n), max) == if n <= max {
            Some(n as int)
        } else {
            None
        },
        parsed(seq!['+'] + decimal(n), max) == parsed(decimal(n), max),
        parsed(Seq::empty(), max) is None,
        s.len() > 0 && s[0] != '+' && !(forall|i: int|
            0 <= i < s.len() ==> '0' <= #[trigger] s[i] && s[i] <= '9') ==> parsed(s, max) is None,
        parsed(s, max) matches Some(v) ==> 0 <= v <= max,
{
    has_digits(n);
    let d = decimal(n);
    assert(is_digit(d[0]));
    assert((seq!['+'] + d).skip(1) =~= d);
    value_is_natural(unsigned_part(s));
}

proof fn value_is_natural(s: Seq<char>)
    ensures
        all_digits(s) ==> digits_value(s) >= 0,
    decreases s.len(),
{
    if s.len() > 0 && all_digits(s) {
        let t = s.drop_last();
        assert forall|i: int| 0 <= i < t.len() implies is_digit(#[trigger] t[i]) by {
            assert(t[i] == s[i]);
        }
        value_is_natural(t);
        assert(is_digit(s[s.len() - 1]));
    }
}

// ── letters ─────────────────────────────────────────────────────────────

/// Law: lowering changes the capital letters of English, each to its small one,
/// and no other character.
pub proof fn lowering_changes_capitals_only(s: Seq<char>, i: int)
    requires
        0 <= i < s.len(),
    ensures
        lowered(s).len() == s.len(),
        'A' <= s[i] && s[i] <= 'Z' ==> lowered(s)[i] as int - 'a' as int == s[i] as int
            - 'A' as int,
        !('A' <= s[i] && s[i] <= 'Z') ==> lowered(s)[i] == s[i],
        lowered(lowered(s)) == lowered(s),
{
    assert forall|j: int| 0 <= j < s.len() implies lower_char(lower_char(#[trigger] s[j]))
        == lower_char(s[j]) by {}
    assert(lowered(lowered(s)) =~= lowered(s));
}

/// Law: replacing starts at the front: what stands before the first occurrence is
/// kept, the occurrence gives way, and what stands behind is treated alike. A
/// text without an occurrence stays as it is.
pub proof fn replacing_goes_from_the_front(
    a: Seq<char>,
    from: Seq<char>,
    b: Seq<char>,
    to: Seq<char>,
)
    requires
        from.len() > 0,
    ensures
        !contains(a, from) ==> replaced(a, from, to) == a,
        (forall|i: int| 0 <= i < a.len() ==> !#[trigger] occurs_at(a + from + b, from, i))
            ==> replaced(a + from + b, from, to) == a + to + replaced(b, from, to),
    decreases a.len(),
{
    let s = a + from + b;
    if a.len() == 0 {
        assert(s.subrange(0, from.len() as int) =~= from);
        assert(s.skip(from.len() as int) =~= b);
        assert(replaced(s, from, to) =~= a + to + replaced(b, from, to));
    } else {
        let r = a.skip(1);
        replacing_goes_from_the_front(r, from, b, to);
        assert(s.skip(1) =~= r + from + b);
        if forall|i: int| 0 <= i < a.len() ==> !#[trigger] occurs_at(s, from, i) {
            assert forall|i: int| 0 <= i < r.len() implies !#[trigger] occurs_at(
                r + from + b,
                from,
                i,
            ) by {
                assert(!occurs_at(s, from, i + 1));
                assert(s.subrange(i + 1, i + 1 + from.len()) =~= (r + from + b).subrange(
                    i,
                    i + from.len(),
                ));
            }
            assert(!occurs_at(s, from, 0));
            assert(seq![s[0]] + (r + to + replaced(b, from, to)) =~= a + to + replaced(
                b,
                from,
                to,
            ));
        }
        if !contains(a, from) {
            assert(!occurs_at(a, from, 0));
            assert forall|i: int| !#[trigger] occurs_at(r, from, i) by {
                assert(!occurs_at(a, from, i + 1));
                if 0 <= i && i + from.len() <= r.len() {
                    assert(a.subrange(i + 1, i + 1 + from.len()) =~= r.subrange(
                        i,
                        i + from.len(),
                    ));
                }
            }
            assert(seq![a[0]] + r =~= a);
        }
    }
}

/// Law: repeating a text `n` times makes it `n` times as long, and each round of
/// it is the text.
pub proof fn repeating_adds_up(s: Seq<char>, n: nat)
    ensures
        repeated(s, n).len() == n * s.len(),
        repeated(s, 0) == Seq::<char>::empty(),
        repeated(s, n + 1) == repeated(s, n) + s,
    decreases n,
{
    if n > 0 {
        repeating_adds_up(s, (n - 1) as nat);
        assert(n * s.len() == (n - 1) * s.len() + s.len()) by (nonlinear_arith)
            requires
                n > 0,
        ;
    } else {
        assert(n * s.len() == 0) by (nonlinear_arith)
            requires
                n == 0,
        ;
    }
}

// ── order ───────────────────────────────────────────────────────────────

/// Law: text is ordered by its first difference, and a text comes before every
/// longer one that it begins.
pub proof fn order_is_by_the_first_difference(a: Seq<char>, b: Seq<char>, k: int)
    requires
        0 <= k <= a.len(),
        k <= b.len(),
        a.take(k) == b.take(k),
        k == a.len() || k == b.len() || a[k] != b[k],
    ensures
        precedes(a, b) <==> k < b.len() && (k == a.len() || a[k] < b[k]),
    decreases a.len(),
{
    if k > 0 {
        assert(a.take(k)[0] == b.take(k)[0]);
        let x = a.skip(1);
        let y = b.skip(1);
        assert(x.take(k - 1) =~= a.take(k).skip(1));
        assert(y.take(k - 1) =~= b.take(k).skip(1));
        assert(a.take(k)[0] == a[0] && b.take(k)[0] == b[0]);
        if k < a.len() && k < b.len() {
            assert(x[k - 1] == a[k] && y[k - 1] == b[k]);
        }
        order_is_by_the_first_difference(x, y, k - 1);
        assert(precedes(a, b) == precedes(x, y));
    }
}

// ── names of files ──────────────────────────────────────────────────────

/// Law: the extension of a file is what stands behind the last point of its name,
/// where something stands before it; a name without a point, and one whose only
/// point is its first character, has none.
pub proof fn extensions_follow_the_last_point(stem: Seq<char>, ext: Seq<char>)
    requires
        free_of(ext, '.'),
    ensures
        stem.len() > 0 && !(stem =~= seq!['.'] && ext.len() == 0) ==> extension(
            stem + seq!['.'] + ext,
        ) == Some(ext),
        extension(ext) is None,
        extension(seq!['.'] + ext) is None,
        forall|other: Seq<char>| #[trigger]
            has_extension(stem + seq!['.'] + ext, other) && stem.len() > 0 ==> other == ext || (
            stem =~= seq!['.'] && ext.len() == 0),
{
    let name = stem + seq!['.'] + ext;
    pieces_stand_between_separators(stem, '.', ext);
    pieces_stand_between_separators(Seq::empty(), '.', ext);
    pieces_nonempty(stem, '.');
    one_piece(ext, '.');
    assert(pieces(name, '.') =~= pieces(stem, '.').push(ext));
    assert(Seq::<char>::empty() + seq!['.'] + ext =~= seq!['.'] + ext);
    assert(pieces(seq!['.'] + ext, '.') =~= seq![Seq::<char>::empty(), ext]);
    reveal_strlit("..");
    assert(".."@ =~= seq!['.', '.']);
    if stem.len() > 0 {
        if name == ".."@ {
            assert(stem.len() + 1 + ext.len() == 2);
            assert(stem =~= seq!['.']) by {
                assert(name[0] == '.');
                assert(stem[0] == name[0]);
            }
        }
        if pieces(name, '.').len() == 2 && pieces(name, '.')[0].len() == 0 {
            pieces_join_to_the_text(stem, '.');
            assert(pieces(stem, '.').len() == 1);
            assert(pieces(stem, '.')[0] == pieces(name, '.')[0]);
            assert(stem.len() == 0);
        }
    }
}

// ── paths ───────────────────────────────────────────────────────────────

proof fn one_more_piece(a: Seq<char>, name: Seq<char>)
    requires
        free_of(name, '/'),
    ensures
        components(a + seq!['/'] + name) == if name.len() == 0 || name == "."@ {
            components(a)
        } else {
            components(a).push(name)
        },
{
    pieces_stand_between_separators(a, '/', name);
    pieces_nonempty(a, '/');
    one_piece(name, '/');
    let all = pieces(a, '/');
    let more = pieces(a + seq!['/'] + name, '/');
    assert(more =~= all.push(name));
    reveal(Seq::filter);
    assert(more.drop_last() =~= all);
    assert(more[0] == all[0]);
    let dot = seq!["."@];
    if !(name.len() == 0 || name == "."@) {
        assert(counting()(name));
        assert(dot + all.filter(counting()).push(name) =~= (dot + all.filter(counting())).push(
            name,
        ));
    } else {
        assert(!counting()(name));
    }
}

/// Law: a path is made of the names between its slashes: a name behind a slash is one
/// part more, while a slash at the end, two in a row, and a point alone add none.
pub proof fn names_are_parts_of_a_path(a: Seq<char>, name: Seq<char>)
    requires
        free_of(name, '/'),
        name.len() > 0,
    ensures
        components(Seq::empty()) == Seq::<Seq<char>>::empty(),
        components(name) == seq![name],
        name != "."@ ==> components(a + seq!['/'] + name) == components(a).push(name),
        components(a + seq!['/']) == components(a),
        components(a + seq!['/'] + "."@) == components(a),
        same_path(a, a),
        a.len() > 0 ==> same_path(a + seq!['/'], a),
{
    one_more_piece(a, name);
    one_more_piece(a, Seq::empty());
    reveal_strlit(".");
    assert(free_of("."@, '/'));
    one_more_piece(a, "."@);
    assert(a + seq!['/'] + Seq::<char>::empty() =~= a + seq!['/']);
    one_piece(name, '/');
    one_piece(Seq::empty(), '/');
    reveal(Seq::filter);
    let one = seq![name];
    assert(one.drop_last() =~= Seq::<Seq<char>>::empty());
    let none = seq![Seq::<char>::empty()];
    assert(none.drop_last() =~= Seq::<Seq<char>>::empty());
    assert(Seq::<Seq<char>>::empty().filter(counting()) =~= Seq::<Seq<char>>::empty());
    if name == "."@ {
        assert(!counting()(name));
        assert(one.filter(counting()) =~= Seq::<Seq<char>>::empty());
    } else {
        assert(counting()(name));
        assert(one.filter(counting()) =~= one);
    }
    assert(pieces(name, '/')[0] == name);
    assert(components(name) =~= seq![name]);
    assert(!counting()(Seq::<char>::empty()));
    assert(none.filter(counting()) =~= Seq::<Seq<char>>::empty());
    assert(components(Seq::empty()) =~= Seq::<Seq<char>>::empty());
    reveal_strlit("/");
    if a.len() > 0 {
        assert((a + seq!['/']).subrange(0, 1) =~= a.subrange(0, 1));
    }
}

/// Law: the name of what a path leads to is its last part, unless that leads up.
pub proof fn the_last_part_is_the_name(a: Seq<char>, name: Seq<char>)
    requires
        free_of(name, '/'),
        name.len() > 0,
        name != "."@,
    ensures
        name != ".."@ ==> base_name(a + seq!['/'] + name) == Some(name) && base_name(name) == Some(
            name,
        ),
        base_name(a + seq!['/'] + ".."@) is None,
        base_name(a + seq!['/']) == base_name(a),
        base_name(Seq::empty()) is None,
{
    names_are_parts_of_a_path(a, name);
    reveal_strlit("..");
    reveal_strlit(".");
    assert(".."@.len() == 2 && "."@.len() == 1);
    assert(free_of(".."@, '/'));
    names_are_parts_of_a_path(a, ".."@);
}

/// Law: a path is seen from a directory: an absolute one as it is, any other below
/// the directory, with one slash between.
pub proof fn paths_are_seen_from_a_directory(base: Seq<char>, path: Seq<char>)
    requires
        path.len() > 0,
    ensures
        path[0] == '/' ==> joined_path(base, path) == path,
        base.len() == 0 ==> joined_path(base, path) == path,
        path[0] != '/' && base.len() > 0 && base.last() == '/' ==> joined_path(base, path) == base
            + path,
        path[0] != '/' && base.len() > 0 && base.last() != '/' ==> joined_path(base, path) == base
            + seq!['/'] + path,
{
    reveal_strlit("/");
    assert("/"@ =~= seq!['/']);
    assert(path.subrange(0, 1) =~= seq![path[0]]);
    assert(seq![path[0]][0] == path[0] && seq!['/'][0] == '/');
    if base.len() > 0 {
        assert(base.subrange(base.len() - 1, base.len() as int) =~= seq![base.last()]);
        assert(seq![base.last()][0] == base.last());
    }
}

/// Law: of the characters of English text, white space is the space, the tab and the
/// characters that end lines or pages, and nothing that can be seen.
pub proof fn what_is_white_space(c: char)
    ensures
        c as int <= 127 ==> (is_space(c) <==> c == ' ' || (9 <= c as int && c as int <= 13)),
        is_space('\n') && is_space('\r') && is_space('\t') && is_space('\u{a0}') && is_space(
            '\u{3000}',
        ),
        !is_space('\u{200b}') && !is_space('\u{feff}'),
{
}

} // verus!
