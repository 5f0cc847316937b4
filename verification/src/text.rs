//! Text as sequences of characters: what the string operations of the
//! dashboard mean, and executable versions proved against that meaning.
pub mod laws;

use vstd::prelude::*;
use vstd::string::*;

verus! {

/// `String::push`: appends one character at the end.
pub assume_specification[ String::push ](s: &mut String, c: char)
    ensures
        final(s)@ == old(s)@.push(c),
;

/// The characters of each string of a list.
pub open spec fn texts(v: Seq<String>) -> Seq<Seq<char>> {
    v.map_values(|s: String| s@)
}

/// The characters of an optional string.
pub open spec fn opt_text(s: Option<String>) -> Option<Seq<char>> {
    match s {
        Some(t) => Some(t@),
        None => None,
    }
}

/// The characters of an optional string slice.
pub open spec fn opt_str(s: Option<&str>) -> Option<Seq<char>> {
    match s {
        Some(t) => Some(t@),
        None => None,
    }
}

/// `part` stands in `s` at position `i`.
pub open spec fn occurs_at(s: Seq<char>, part: Seq<char>, i: int) -> bool {
    0 <= i && i + part.len() <= s.len() && s.subrange(i, i + part.len()) == part
}

/// `part` stands somewhere in `s`.
pub open spec fn contains(s: Seq<char>, part: Seq<char>) -> bool {
    exists|i: int| occurs_at(s, part, i)
}

pub open spec fn starts_with(s: Seq<char>, part: Seq<char>) -> bool {
    occurs_at(s, part, 0)
}

pub open spec fn ends_with(s: Seq<char>, part: Seq<char>) -> bool {
    occurs_at(s, part, s.len() - part.len())
}

/// The pieces of `s` between occurrences of `sep`: one more than there are
/// separators, so the empty text has one empty piece.
pub open spec fn pieces(s: Seq<char>, sep: char) -> Seq<Seq<char>>
    decreases s.len(),
{
    if s.len() == 0 {
        seq![Seq::<char>::empty()]
    } else {
        let before = pieces(s.drop_last(), sep);
        if s.last() == sep {
            before.push(Seq::<char>::empty())
        } else {
            before.drop_last().push(before.last().push(s.last()))
        }
    }
}

/// `s` with every occurrence of `from`, taken from the left without overlap,
/// replaced by `to`.
pub open spec fn replaced(s: Seq<char>, from: Seq<char>, to: Seq<char>) -> Seq<char>
    decreases s.len(),
{
    if s.len() == 0 || from.len() == 0 {
        s
    } else if starts_with(s, from) {
        to + replaced(s.skip(from.len() as int), from, to)
    } else {
        seq![s[0]] + replaced(s.skip(1), from, to)
    }
}

pub open spec fn lower_char(c: char) -> char {
    if 'A' <= c && c <= 'Z' {
        ((c as u32 + 32) as u32) as char
    } else {
        c
    }
}

/// ASCII letters in lower case, everything else as it is.
pub open spec fn lowered(s: Seq<char>) -> Seq<char> {
    s.map_values(|c: char| lower_char(c))
}

pub open spec fn digit_char(d: nat) -> char {
    ((48 + d) as u32) as char
}

/// The decimal digits of `n`, without leading zeros.
pub open spec fn decimal(n: nat) -> Seq<char>
    decreases n,
{
    if n < 10 {
        seq![digit_char(n)]
    } else {
        decimal(n / 10).push(digit_char(n % 10))
    }
}

/// The decimal digits of `n`, after a minus sign where it is negative.
pub open spec fn signed_decimal(n: int) -> Seq<char> {
    if n < 0 {
        seq!['-'] + decimal((-n) as nat)
    } else {
        decimal(n as nat)
    }
}

/// `parts` one after the other, with `sep` between neighbours.
pub open spec fn joined(parts: Seq<Seq<char>>, sep: Seq<char>) -> Seq<char>
    decreases parts.len(),
{
    if parts.len() == 0 {
        Seq::empty()
    } else if parts.len() == 1 {
        parts[0]
    } else {
        joined(parts.drop_last(), sep) + sep + parts.last()
    }
}

/// `s` without the run of `c` at its end.
pub open spec fn trimmed_end_of(s: Seq<char>, c: char) -> Seq<char>
    decreases s.len(),
{
    if s.len() > 0 && s.last() == c {
        trimmed_end_of(s.drop_last(), c)
    } else {
        s
    }
}

/// The characters with the Unicode property White_Space.
pub open spec fn is_space(c: char) -> bool {
    ||| '\u{9}' <= c && c <= '\u{d}'
    ||| c == ' '
    ||| c == '\u{85}'
    ||| c == '\u{a0}'
    ||| c == '\u{1680}'
    ||| '\u{2000}' <= c && c <= '\u{200a}'
    ||| c == '\u{2028}'
    ||| c == '\u{2029}'
    ||| c == '\u{202f}'
    ||| c == '\u{205f}'
    ||| c == '\u{3000}'
}

pub open spec fn trimmed_start(s: Seq<char>) -> Seq<char>
    decreases s.len(),
{
    if s.len() > 0 && is_space(s[0]) {
        trimmed_start(s.skip(1))
    } else {
        s
    }
}

pub open spec fn trimmed_end(s: Seq<char>) -> Seq<char>
    decreases s.len(),
{
    if s.len() > 0 && is_space(s.last()) {
        trimmed_end(s.drop_last())
    } else {
        s
    }
}

/// `s` without white space at either end.
pub open spec fn trimmed(s: Seq<char>) -> Seq<char> {
    trimmed_end(trimmed_start(s))
}

/// `n` copies of `s`.
pub open spec fn repeated(s: Seq<char>, n: nat) -> Seq<char>
    decreases n,
{
    if n == 0 {
        Seq::empty()
    } else {
        repeated(s, (n - 1) as nat) + s
    }
}

/// The characters of `s`, one by one.
pub fn chars_of(s: &str) -> (r: Vec<char>)
    ensures
        r@ == s@,
{
    let mut r: Vec<char> = Vec::new();
    for c in it: s.chars()
        invariant
            r@ == it.seq().take(it.index() as int),
            it.seq() == s@,
    {
        r.push(c);
    }
    r
}

/// The text made of the characters `from..to` of `v`.
pub fn text_of(v: &Vec<char>, from: usize, to: usize) -> (r: String)
    requires
        from <= to <= v.len(),
    ensures
        r@ == v@.subrange(from as int, to as int),
{
    let mut r = String::new();
    let mut i: usize = from;
    while i < to
        invariant
            from <= i <= to <= v.len(),
            r@ == v@.subrange(from as int, i as int),
        decreases to - i,
    {
        r.push(v[i]);
        i = i + 1;
    }
    r
}

pub fn same(a: &str, b: &str) -> (r: bool)
    ensures
        r == (a@ == b@),
{
    let a = a.to_owned();
    let b = b.to_owned();
    a.eq(&b)
}

/// Whether `part` stands in `s` at position `i`.
fn is_at(s: &Vec<char>, part: &Vec<char>, i: usize) -> (r: bool)
    ensures
        r == occurs_at(s@, part@, i as int),
{
    if i > s.len() || part.len() > s.len() - i {
        return false;
    }
    let mut k: usize = 0;
    while k < part.len()
        invariant
            k <= part.len(),
            i + part.len() <= s.len(),
            forall|j: int| 0 <= j < k ==> s@[i + j] == part@[j],
        decreases part.len() - k,
    {
        if s[i + k] != part[k] {
            assert(s@.subrange(i as int, i + part@.len())[k as int] != part@[k as int]);
            return false;
        }
        k = k + 1;
    }
    assert(s@.subrange(i as int, i + part@.len()) =~= part@);
    true
}

/// Whether `part` stands somewhere in `s`, as `str::contains` asks.
pub fn has(s: &str, part: &str) -> (r: bool)
    ensures
        r == contains(s@, part@),
{
    find(&chars_of(s), &chars_of(part)).is_some()
}

/// The place of the first `part` in `s`.
pub fn find(s: &Vec<char>, part: &Vec<char>) -> (r: Option<usize>)
    ensures
        match r {
            Some(i) => occurs_at(s@, part@, i as int) && forall|j: int|
                0 <= j < i ==> !occurs_at(s@, part@, j),
            None => !contains(s@, part@),
        },
{
    let mut i: usize = 0;
    while i < s.len()
        invariant
            i <= s.len(),
            forall|j: int| 0 <= j < i ==> !occurs_at(s@, part@, j),
        decreases s.len() - i,
    {
        if is_at(s, part, i) {
            return Some(i);
        }
        i = i + 1;
    }
    if is_at(s, part, i) {
        return Some(i);
    }
    None
}

pub fn begins(s: &str, part: &str) -> (r: bool)
    ensures
        r == starts_with(s@, part@),
{
    is_at(&chars_of(s), &chars_of(part), 0)
}

pub fn ends(s: &str, part: &str) -> (r: bool)
    ensures
        r == ends_with(s@, part@),
{
    let sv = chars_of(s);
    let pv = chars_of(part);
    if pv.len() > sv.len() {
        return false;
    }
    is_at(&sv, &pv, sv.len() - pv.len())
}

/// What follows `part` in `s`, where `s` begins with it.
pub fn after_prefix(s: &str, part: &str) -> (r: Option<String>)
    ensures
        starts_with(s@, part@) <==> r is Some,
        r matches Some(t) ==> t@ == s@.skip(part@.len() as int),
{
    let sv = chars_of(s);
    let pv = chars_of(part);
    if is_at(&sv, &pv, 0) {
        let t = text_of(&sv, pv.len(), sv.len());
        assert(t@ =~= s@.skip(part@.len() as int));
        Some(t)
    } else {
        None
    }
}

/// One more character extends the last piece or opens a new one.
proof fn pieces_step(s: Seq<char>, i: int, sep: char)
    requires
        0 <= i < s.len(),
    ensures
        pieces(s.take(i + 1), sep) == if s[i] == sep {
            pieces(s.take(i), sep).push(Seq::<char>::empty())
        } else {
            pieces(s.take(i), sep).drop_last().push(pieces(s.take(i), sep).last().push(s[i]))
        },
{
    assert(s.take(i + 1).drop_last() =~= s.take(i));
}

/// There is always at least one piece.
pub proof fn pieces_nonempty(s: Seq<char>, sep: char)
    ensures
        pieces(s, sep).len() >= 1,
    decreases s.len(),
{
    if s.len() > 0 {
        pieces_nonempty(s.drop_last(), sep);
    }
}

/// The pieces of `s` between occurrences of `sep`, as `str::split` gives them.
pub fn split(s: &str, sep: char) -> (r: Vec<String>)
    ensures
        texts(r@) == pieces(s@, sep),
        r.len() >= 1,
{
    let v = chars_of(s);
    let mut done: Vec<String> = Vec::new();
    let mut cur = String::new();
    let mut i: usize = 0;
    assert(texts(done@).push(cur@) =~= pieces(v@.take(0), sep));
    while i < v.len()
        invariant
            i <= v.len(),
            v@ == s@,
            texts(done@).push(cur@) == pieces(v@.take(i as int), sep),
        decreases v.len() - i,
    {
        proof {
            pieces_step(v@, i as int, sep);
            assert(texts(done@).push(cur@).drop_last() =~= texts(done@));
        }
        if v[i] == sep {
            let ghost before = texts(done@).push(cur@);
            done.push(cur);
            cur = String::new();
            assert(texts(done@) =~= before);
        } else {
            cur.push(v[i]);
        }
        i = i + 1;
    }
    assert(v@.take(i as int) =~= s@);
    let ghost all = texts(done@).push(cur@);
    done.push(cur);
    assert(texts(done@) =~= all);
    done
}

/// What `replaced` does from position `i` on, one step at a time.
proof fn replaced_step(s: Seq<char>, i: int, from: Seq<char>, to: Seq<char>)
    requires
        0 <= i < s.len(),
        from.len() > 0,
    ensures
        occurs_at(s, from, i) <==> starts_with(s.skip(i), from),
        occurs_at(s, from, i) ==> replaced(s.skip(i), from, to) == to + replaced(
            s.skip(i + from.len()),
            from,
            to,
        ),
        !occurs_at(s, from, i) ==> replaced(s.skip(i), from, to) == seq![s[i]] + replaced(
            s.skip(i + 1),
            from,
            to,
        ),
{
    let t = s.skip(i);
    if i + from.len() <= s.len() {
        assert(t.subrange(0, from.len() as int) =~= s.subrange(i, i + from.len()));
        assert(t.skip(from.len() as int) =~= s.skip(i + from.len()));
    }
    assert(t.skip(1) =~= s.skip(i + 1));
}

/// `s` with `from` replaced by `to`, as `str::replace` does it.
pub fn replace(s: &str, from: &str, to: &str) -> (r: String)
    requires
        from@.len() > 0,
    ensures
        r@ == replaced(s@, from@, to@),
{
    let v = chars_of(s);
    let f = chars_of(from);
    let mut r = String::new();
    let mut i: usize = 0;
    assert(v@.skip(0) =~= s@);
    while i < v.len()
        invariant
            i <= v.len(),
            v@ == s@,
            f@ == from@,
            f.len() > 0,
            r@ + replaced(v@.skip(i as int), from@, to@) == replaced(s@, from@, to@),
        decreases v.len() - i,
    {
        proof {
            replaced_step(v@, i as int, from@, to@);
        }
        let ghost before = r@;
        if is_at(&v, &f, i) {
            r.append(to);
            i = i + f.len();
            assert(r@ + replaced(v@.skip(i as int), from@, to@) =~= before + (to@ + replaced(
                v@.skip(i as int),
                from@,
                to@,
            )));
        } else {
            r.push(v[i]);
            i = i + 1;
            assert(r@ + replaced(v@.skip(i as int), from@, to@) =~= before + (seq![v@[i - 1]]
                + replaced(v@.skip(i as int), from@, to@)));
        }
    }
    assert(v@.skip(i as int) =~= Seq::empty());
    assert(r@ =~= r@ + replaced(v@.skip(i as int), from@, to@));
    r
}

/// `str::to_ascii_lowercase`.
pub fn to_lower(s: &str) -> (r: String)
    ensures
        r@ == lowered(s@),
{
    let v = chars_of(s);
    let mut r = String::new();
    let mut i: usize = 0;
    while i < v.len()
        invariant
            i <= v.len(),
            v@ == s@,
            r@ == lowered(s@.take(i as int)),
        decreases v.len() - i,
    {
        let c = v[i];
        let low = if 'A' <= c && c <= 'Z' {
            ((c as u8) + 32) as char
        } else {
            c
        };
        r.push(low);
        i = i + 1;
        assert(r@ =~= lowered(s@.take(i as int)));
    }
    assert(s@.take(i as int) =~= s@);
    r
}

fn digit(d: u64) -> (c: char)
    requires
        d < 10,
    ensures
        c == digit_char(d as nat),
{
    ((d as u8) + 48) as char
}

/// The decimal digits of `n`.
pub fn number(n: u64) -> (r: String)
    ensures
        r@ == decimal(n as nat),
    decreases n,
{
    let mut r = if n < 10 {
        String::new()
    } else {
        number(n / 10)
    };
    r.push(digit(n % 10));
    assert(n < 10 ==> r@ =~= seq![digit_char(n as nat)]);
    r
}

/// The decimal digits of `n`, after a minus sign where it is negative.
pub fn signed_number(n: i32) -> (r: String)
    ensures
        r@ == signed_decimal(n as int),
{
    if n < 0 {
        let mut r = String::new();
        r.push('-');
        r.append(number((-(n as i64)) as u64).as_str());
        assert(r@ =~= signed_decimal(n as int));
        r
    } else {
        number(n as u64)
    }
}

/// `parts` with `sep` between neighbours.
pub fn join(parts: &Vec<String>, sep: &str) -> (r: String)
    ensures
        r@ == joined(texts(parts@), sep@),
{
    let mut r = String::new();
    let mut i: usize = 0;
    while i < parts.len()
        invariant
            i <= parts.len(),
            r@ == joined(texts(parts@).take(i as int), sep@),
        decreases parts.len() - i,
    {
        assert(texts(parts@).take(i + 1).drop_last() =~= texts(parts@).take(i as int));
        if i > 0 {
            r.append(sep);
        }
        r.append(parts[i].as_str());
        i = i + 1;
        assert(i == 1 ==> r@ =~= texts(parts@)[0]);
    }
    assert(texts(parts@).take(i as int) =~= texts(parts@));
    r
}

proof fn trimmed_end_of_prefix(s: Seq<char>, c: char, n: int)
    requires
        0 <= n <= s.len(),
        forall|j: int| n <= j < s.len() ==> s[j] == c,
    ensures
        trimmed_end_of(s, c) == trimmed_end_of(s.take(n), c),
    decreases s.len(),
{
    if n < s.len() {
        trimmed_end_of_prefix(s.drop_last(), c, n);
        assert(s.drop_last().take(n) =~= s.take(n));
    } else {
        assert(s.take(n) =~= s);
    }
}

/// `s` without the run of `c` at its end, as `str::trim_end_matches` does it.
pub fn trim_end_of(s: &str, c: char) -> (r: String)
    ensures
        r@ == trimmed_end_of(s@, c),
{
    let v = chars_of(s);
    let mut n: usize = v.len();
    while n > 0 && v[n - 1] == c
        invariant
            n <= v.len(),
            forall|j: int| n <= j < v.len() ==> v@[j] == c,
        decreases n,
    {
        n = n - 1;
    }
    proof {
        trimmed_end_of_prefix(v@, c, n as int);
        assert(v@.subrange(0, n as int) =~= v@.take(n as int));
    }
    text_of(&v, 0, n)
}

pub fn space(c: char) -> (r: bool)
    ensures
        r == is_space(c),
{
    ('\u{9}' <= c && c <= '\u{d}') || c == ' ' || c == '\u{85}' || c == '\u{a0}' || c == '\u{1680}'
        || ('\u{2000}' <= c && c <= '\u{200a}') || c == '\u{2028}' || c == '\u{2029}' || c
        == '\u{202f}' || c == '\u{205f}' || c == '\u{3000}'
}

proof fn trimmed_start_skips(s: Seq<char>, n: int)
    requires
        0 <= n <= s.len(),
        forall|j: int| 0 <= j < n ==> is_space(s[j]),
    ensures
        trimmed_start(s) == trimmed_start(s.skip(n)),
    decreases n,
{
    if n > 0 {
        trimmed_start_skips(s.skip(1), n - 1);
        assert(s.skip(1).skip(n - 1) =~= s.skip(n));
    } else {
        assert(s.skip(0) =~= s);
    }
}

proof fn trimmed_end_takes(s: Seq<char>, n: int)
    requires
        0 <= n <= s.len(),
        forall|j: int| n <= j < s.len() ==> is_space(s[j]),
    ensures
        trimmed_end(s) == trimmed_end(s.take(n)),
    decreases s.len(),
{
    if n < s.len() {
        trimmed_end_takes(s.drop_last(), n);
        assert(s.drop_last().take(n) =~= s.take(n));
    } else {
        assert(s.take(n) =~= s);
    }
}

/// `s` without white space at either end, as `str::trim` does it.
pub fn trim(s: &str) -> (r: String)
    ensures
        r@ == trimmed(s@),
{
    let v = chars_of(s);
    let mut a: usize = 0;
    while a < v.len() && space(v[a])
        invariant
            a <= v.len(),
            forall|j: int| 0 <= j < a ==> is_space(v@[j]),
        decreases v.len() - a,
    {
        a = a + 1;
    }
    let mut b: usize = v.len();
    while b > a && space(v[b - 1])
        invariant
            a <= b <= v.len(),
            forall|j: int| b <= j < v.len() ==> is_space(v@[j]),
        decreases b,
    {
        b = b - 1;
    }
    proof {
        trimmed_start_skips(v@, a as int);
        let t = v@.skip(a as int);
        assert(trimmed_start(t) == t);
        trimmed_end_takes(t, b - a);
        assert(t.take(b - a) =~= v@.subrange(a as int, b as int));
    }
    text_of(&v, a, b)
}

/// `n` copies of `s`, as `str::repeat` makes them.
pub fn repeat(s: &str, n: usize) -> (r: String)
    ensures
        r@ == repeated(s@, n as nat),
{
    let mut r = String::new();
    let mut i: usize = 0;
    while i < n
        invariant
            i <= n,
            r@ == repeated(s@, i as nat),
        decreases n - i,
    {
        r.append(s);
        i = i + 1;
    }
    r
}

/// A copy of a list of strings.
pub fn copy_texts(v: &Vec<String>) -> (r: Vec<String>)
    ensures
        r@ == v@,
{
    let mut r: Vec<String> = Vec::new();
    let mut i: usize = 0;
    while i < v.len()
        invariant
            i <= v.len(),
            r@ == v@.take(i as int),
        decreases v.len() - i,
    {
        r.push(v[i].clone());
        i = i + 1;
        assert(r@ =~= v@.take(i as int));
    }
    assert(v@.take(i as int) =~= v@);
    r
}

pub open spec fn is_digit(c: char) -> bool {
    '0' <= c && c <= '9'
}

pub open spec fn all_digits(s: Seq<char>) -> bool {
    forall|i: int| 0 <= i < s.len() ==> is_digit(#[trigger] s[i])
}

/// The number that decimal digits write.
pub open spec fn digits_value(s: Seq<char>) -> int
    decreases s.len(),
{
    if s.len() == 0 {
        0
    } else {
        digits_value(s.drop_last()) * 10 + (s.last() as int - '0' as int)
    }
}

/// `s` without one leading plus sign.
pub open spec fn unsigned_part(s: Seq<char>) -> Seq<char> {
    if s.len() > 0 && s[0] == '+' {
        s.skip(1)
    } else {
        s
    }
}

/// The number that `s` writes in decimal, a plus sign in front allowed, where
/// it is at most `max`.
pub open spec fn parsed(s: Seq<char>, max: int) -> Option<int> {
    let d = unsigned_part(s);
    if d.len() > 0 && all_digits(d) && digits_value(d) <= max {
        Some(digits_value(d))
    } else {
        None
    }
}

/// More digits never make a smaller number.
proof fn digits_value_grows(s: Seq<char>, n: int)
    requires
        all_digits(s),
        0 <= n <= s.len(),
    ensures
        0 <= digits_value(s.take(n)) <= digits_value(s),
    decreases s.len(),
{
    if n < s.len() {
        assert(is_digit(s[s.len() - 1]));
        assert(s.drop_last().take(n) =~= s.take(n));
        assert forall|i: int| 0 <= i < s.drop_last().len() implies is_digit(
            #[trigger] s.drop_last()[i],
        ) by {
            assert(is_digit(s[i]));
        }
        digits_value_grows(s.drop_last(), n);
    } else {
        assert(s.take(n) =~= s);
        if s.len() > 0 {
            assert(is_digit(s[s.len() - 1]));
            assert forall|i: int| 0 <= i < s.drop_last().len() implies is_digit(
                #[trigger] s.drop_last()[i],
            ) by {
                assert(is_digit(s[i]));
            }
            digits_value_grows(s.drop_last(), s.len() - 1);
            assert(s.drop_last().take(s.len() - 1) =~= s.drop_last());
        }
    }
}

/// Reads a decimal number of at most `max`, as `str::parse` does for an
/// unsigned type with that maximum.
pub fn parse_number(s: &str, max: u64) -> (r: Option<u64>)
    ensures
        match r {
            Some(n) => parsed(s@, max as int) == Some(n as int),
            None => parsed(s@, max as int) is None,
        },
{
    let v = chars_of(s);
    let from: usize = if v.len() > 0 && v[0] == '+' {
        1
    } else {
        0
    };
    let ghost d = unsigned_part(s@);
    assert(d =~= v@.skip(from as int));
    if from == v.len() {
        return None;
    }
    let mut value: u64 = 0;
    let mut i: usize = from;
    assert(d.take(0) =~= Seq::empty());
    while i < v.len()
        invariant
            from <= i <= v.len(),
            v@ == s@,
            d == unsigned_part(s@),
            d == v@.skip(from as int),
            from < v.len(),
            all_digits(d.take(i - from)),
            value == digits_value(d.take(i - from)),
            value <= max,
        decreases v.len() - i,
    {
        let c = v[i];
        let ghost t = d.take(i + 1 - from);
        assert(t.drop_last() =~= d.take(i - from));
        assert(t.last() == c);
        if c < '0' || '9' < c {
            assert(!is_digit(d[i - from]));
            return None;
        }
        assert(all_digits(t)) by {
            assert forall|j: int| 0 <= j < t.len() implies is_digit(#[trigger] t[j]) by {
                if j < i - from {
                    assert(is_digit(d.take(i - from)[j]));
                }
            }
        }
        let next: u128 = value as u128 * 10 + (c as u32 - 48) as u128;
        assert(next == digits_value(t));
        if next > max as u128 {
            proof {
                if all_digits(d) {
                    digits_value_grows(d, i + 1 - from);
                }
            }
            return None;
        }
        value = next as u64;
        i = i + 1;
    }
    assert(d.take(i - from) =~= d);
    Some(value)
}

/// The first line of a text: up to the first newline, without a carriage
/// return before it.
pub open spec fn first_line(s: Seq<char>) -> Seq<char> {
    let l = pieces(s, '\n')[0];
    if l.len() < s.len() && l.len() > 0 && l.last() == '\r' {
        l.drop_last()
    } else {
        l
    }
}

/// The first line of a text, as `str::lines` gives it; empty for the empty
/// text.
pub fn head_line(s: &str) -> (r: String)
    ensures
        r@ == first_line(s@),
{
    let parts = split(s, '\n');
    assert(texts(parts@)[0] == parts@[0]@);
    let l = chars_of(parts[0].as_str());
    let n: usize = l.len();
    if n < chars_of(s).len() && n > 0 && l[n - 1] == '\r' {
        let r = text_of(&l, 0, n - 1);
        assert(r@ =~= l@.drop_last());
        r
    } else {
        parts[0].clone()
    }
}

/// `a` comes before `b` in the order of strings, character by character.
pub open spec fn precedes(a: Seq<char>, b: Seq<char>) -> bool
    decreases a.len(),
{
    if b.len() == 0 {
        false
    } else if a.len() == 0 {
        true
    } else if a[0] == b[0] {
        precedes(a.skip(1), b.skip(1))
    } else {
        a[0] < b[0]
    }
}

/// Where two texts agree on their first `i` characters, the rest decides.
proof fn precedes_skips(a: Seq<char>, b: Seq<char>, i: int)
    requires
        0 <= i <= a.len(),
        i <= b.len(),
        a.take(i) == b.take(i),
    ensures
        precedes(a, b) == precedes(a.skip(i), b.skip(i)),
    decreases i,
{
    if i == 0 {
        assert(a.skip(0) =~= a);
        assert(b.skip(0) =~= b);
    } else {
        assert(a[0] == a.take(i)[0]);
        assert(b[0] == b.take(i)[0]);
        assert(a.skip(1).take(i - 1) =~= a.take(i).skip(1));
        assert(b.skip(1).take(i - 1) =~= b.take(i).skip(1));
        precedes_skips(a.skip(1), b.skip(1), i - 1);
        assert(a.skip(1).skip(i - 1) =~= a.skip(i));
        assert(b.skip(1).skip(i - 1) =~= b.skip(i));
    }
}

/// The order of strings is a strict order: exactly one of two texts comes
/// first unless they are equal.
pub proof fn precedes_total(a: Seq<char>, b: Seq<char>)
    ensures
        !(precedes(a, b) && precedes(b, a)),
        precedes(a, b) || precedes(b, a) || a == b,
        a == b ==> !precedes(a, b),
    decreases a.len(),
{
    if a.len() > 0 && b.len() > 0 {
        precedes_total(a.skip(1), b.skip(1));
        if a.skip(1) == b.skip(1) && a[0] == b[0] {
            assert(a =~= seq![a[0]] + a.skip(1));
            assert(b =~= seq![b[0]] + b.skip(1));
        }
    } else if a.len() == 0 && b.len() == 0 {
        assert(a =~= b);
    }
}

pub proof fn precedes_transitive(a: Seq<char>, b: Seq<char>, c: Seq<char>)
    requires
        precedes(a, b),
        precedes(b, c),
    ensures
        precedes(a, c),
    decreases a.len(),
{
    if a.len() > 0 && b.len() > 0 && c.len() > 0 && a[0] == b[0] && b[0] == c[0] {
        precedes_transitive(a.skip(1), b.skip(1), c.skip(1));
    }
}

/// Whether `a` comes before `b`.
pub fn before(a: &str, b: &str) -> (r: bool)
    ensures
        r == precedes(a@, b@),
{
    let x = chars_of(a);
    let y = chars_of(b);
    let mut i: usize = 0;
    while i < x.len() && i < y.len() && x[i] == y[i]
        invariant
            i <= x.len(),
            i <= y.len(),
            x@ == a@,
            y@ == b@,
            a@.take(i as int) == b@.take(i as int),
        decreases x.len() - i,
    {
        assert(a@.take(i + 1) =~= a@.take(i as int).push(a@[i as int]));
        assert(b@.take(i + 1) =~= b@.take(i as int).push(b@[i as int]));
        i = i + 1;
    }
    proof {
        precedes_skips(a@, b@, i as int);
    }
    if i >= y.len() {
        false
    } else if i >= x.len() {
        true
    } else {
        x[i] < y[i]
    }
}

/// The extension of a file name: what follows its last dot, unless that dot is
/// its first character or there is none.
pub open spec fn extension(name: Seq<char>) -> Option<Seq<char>> {
    let parts = pieces(name, '.');
    if parts.len() < 2 || name == ".."@ || (parts.len() == 2 && parts[0].len() == 0) {
        None
    } else {
        Some(parts.last())
    }
}

/// The extension of a file name, as `Path::extension` gives it.
pub fn file_extension(name: &str) -> (r: Option<String>)
    ensures
        match r {
            Some(e) => extension(name@) == Some(e@),
            None => extension(name@) is None,
        },
{
    let parts = split(name, '.');
    let n: usize = parts.len();
    assert(forall|k: int| 0 <= k < n ==> texts(parts@)[k] == parts@[k]@);
    if n < 2 || same(name, "..") || (n == 2 && parts[0].as_str().is_empty()) {
        return None;
    }
    Some(parts[n - 1].clone())
}

/// A file name with this extension.
pub open spec fn has_extension(name: Seq<char>, ext: Seq<char>) -> bool {
    extension(name) == Some(ext)
}

pub fn is_extension(name: &str, ext: &str) -> (r: bool)
    ensures
        r == has_extension(name@, ext@),
{
    match file_extension(name) {
        Some(e) => same(e.as_str(), ext),
        None => false,
    }
}

/// A line without one carriage return at its end.
pub open spec fn chomped(l: Seq<char>) -> Seq<char> {
    if l.len() > 0 && l.last() == '\r' {
        l.drop_last()
    } else {
        l
    }
}

/// The lines of a text: what ends in a newline, without the newline and a
/// carriage return before it, and what follows the last newline if anything
/// does.
pub open spec fn lines_of(s: Seq<char>) -> Seq<Seq<char>> {
    let p = pieces(s, '\n');
    let ended = p.drop_last().map_values(|l: Seq<char>| chomped(l));
    if p.last().len() == 0 {
        ended
    } else {
        ended.push(p.last())
    }
}

fn chomp(l: &str) -> (r: String)
    ensures
        r@ == chomped(l@),
{
    let v = chars_of(l);
    let n: usize = v.len();
    if n > 0 && v[n - 1] == '\r' {
        let r = text_of(&v, 0, n - 1);
        assert(r@ =~= l@.drop_last());
        r
    } else {
        l.to_owned()
    }
}

/// The lines of a text, as `str::lines` gives them.
pub fn lines(s: &str) -> (r: Vec<String>)
    ensures
        texts(r@) == lines_of(s@),
{
    let parts = split(s, '\n');
    let n: usize = parts.len();
    let ghost p = pieces(s@, '\n');
    let ghost ended = p.drop_last().map_values(|l: Seq<char>| chomped(l));
    let mut r: Vec<String> = Vec::new();
    let mut i: usize = 0;
    while i < n - 1
        invariant
            i <= n - 1,
            n == parts@.len(),
            n >= 1,
            texts(parts@) == p,
            ended == p.drop_last().map_values(|l: Seq<char>| chomped(l)),
            texts(r@) == ended.take(i as int),
        decreases n - i,
    {
        let ghost before = texts(r@);
        assert(p[i as int] == parts@[i as int]@);
        r.push(chomp(parts[i].as_str()));
        assert(texts(r@) =~= before.push(ended[i as int]));
        i = i + 1;
        assert(ended.take(i as int) =~= before.push(ended[i - 1]));
    }
    assert(ended.take(i as int) =~= ended);
    assert(p.last() == parts@[n - 1]@);
    if !parts[n - 1].as_str().is_empty() {
        let ghost before = texts(r@);
        r.push(parts[n - 1].clone());
        assert(texts(r@) =~= before.push(p.last()));
    }
    r
}

/// The words of a text: the longest runs without white space.
pub open spec fn words_of(s: Seq<char>) -> Seq<Seq<char>>
    decreases s.len(),
{
    if s.len() == 0 {
        Seq::empty()
    } else {
        let c = s.last();
        let before = words_of(s.drop_last());
        if is_space(c) {
            before
        } else if s.len() == 1 || is_space(s[s.len() - 2]) {
            before.push(seq![c])
        } else {
            before.drop_last().push(before.last().push(c))
        }
    }
}

/// A text that ends in something else than white space has a word.
proof fn words_nonempty(s: Seq<char>)
    requires
        s.len() > 0,
        !is_space(s.last()),
    ensures
        words_of(s).len() >= 1,
    decreases s.len(),
{
    if s.len() > 1 && !is_space(s[s.len() - 2]) {
        assert(s.drop_last().last() == s[s.len() - 2]);
        words_nonempty(s.drop_last());
    }
}

/// The words of a text, as `str::split_whitespace` gives them.
pub fn words(s: &str) -> (r: Vec<String>)
    ensures
        texts(r@) == words_of(s@),
{
    let v = chars_of(s);
    let mut r: Vec<String> = Vec::new();
    let mut i: usize = 0;
    assert(texts(r@) =~= words_of(v@.take(0)));
    while i < v.len()
        invariant
            i <= v.len(),
            v@ == s@,
            texts(r@) == words_of(v@.take(i as int)),
        decreases v.len() - i,
    {
        let c = v[i];
        let ghost t = v@.take(i + 1);
        let ghost before = texts(r@);
        assert(t.drop_last() =~= v@.take(i as int));
        if !space(c) {
            if i == 0 || space(v[i - 1]) {
                let mut w = String::new();
                w.push(c);
                assert(w@ =~= seq![c]);
                r.push(w);
                assert(texts(r@) =~= before.push(seq![c]));
            } else {
                proof {
                    words_nonempty(v@.take(i as int));
                    assert(before.len() == r@.len());
                }
                match r.pop() {
                    Some(w0) => {
                        let mut w = w0;
                        assert(before.last() == w@);
                        assert(texts(r@) =~= before.drop_last());
                        w.push(c);
                        r.push(w);
                        assert(texts(r@) =~= before.drop_last().push(before.last().push(c)));
                    },
                    None => {},
                }
            }
        }
        i = i + 1;
    }
    assert(v@.take(i as int) =~= s@);
    r
}

/// `s` without every leading `part`.
pub open spec fn trimmed_start_of(s: Seq<char>, part: Seq<char>) -> Seq<char>
    decreases s.len(),
{
    if part.len() > 0 && starts_with(s, part) {
        trimmed_start_of(s.skip(part.len() as int), part)
    } else {
        s
    }
}

/// `s` without every leading `part`, as `str::trim_start_matches` does it.
pub fn trim_start_of(s: &str, part: &str) -> (r: String)
    requires
        part@.len() > 0,
    ensures
        r@ == trimmed_start_of(s@, part@),
    decreases s@.len(),
{
    match after_prefix(s, part) {
        Some(rest) => trim_start_of(rest.as_str(), part),
        None => s.to_owned(),
    }
}

/// A path component that stands for something: not empty and not `.`.
pub open spec fn counts(c: Seq<char>) -> bool {
    c.len() > 0 && c != "."@
}

pub open spec fn counting() -> spec_fn(Seq<char>) -> bool {
    |c: Seq<char>| counts(c)
}

/// The components of a path after its root. A dot counts only where the path
/// starts with it.
pub open spec fn components(path: Seq<char>) -> Seq<Seq<char>> {
    counted(pieces(path, '/'))
}

/// The components among what stands between slashes.
pub open spec fn counted(all: Seq<Seq<char>>) -> Seq<Seq<char>> {
    if all[0] == "."@ {
        seq!["."@] + all.filter(counting())
    } else {
        all.filter(counting())
    }
}

/// The last component of a path, unless there is none or it is a dot or leads
/// up.
pub open spec fn base_name(path: Seq<char>) -> Option<Seq<char>> {
    let c = components(path);
    if c.len() == 0 || c.last() == ".."@ || c.last() == "."@ {
        None
    } else {
        Some(c.last())
    }
}

/// The components of a path after its root.
pub fn path_components(path: &str) -> (r: Vec<String>)
    ensures
        texts(r@) == components(path@),
{
    let parts = split(path, '/');
    let ghost all = pieces(path@, '/');
    let mut r: Vec<String> = Vec::new();
    assert(parts@.len() == all.len());
    assert(all[0] == parts@[0]@);
    if same(parts[0].as_str(), ".") {
        r.push(".".to_owned());
    }
    let ghost head = texts(r@);
    assert(components(path@) =~= head + all.filter(counting()));
    let mut i: usize = 0;
    proof {
        reveal(Seq::filter);
        assert(head =~= head + all.take(0).filter(counting()));
    }
    while i < parts.len()
        invariant
            i <= parts.len(),
            all == texts(parts@),
            texts(r@) == head + all.take(i as int).filter(counting()),
        decreases parts.len() - i,
    {
        let ghost before = texts(r@);
        proof {
            reveal(Seq::filter);
            assert(all[i as int] == parts@[i as int]@);
            assert(all.take(i + 1).drop_last() =~= all.take(i as int));
            assert(all.take(i + 1).last() == all[i as int]);
        }
        if !parts[i].as_str().is_empty() && !same(parts[i].as_str(), ".") {
            r.push(parts[i].clone());
            assert(texts(r@) =~= before.push(all[i as int]));
            assert(before.push(all[i as int]) =~= head + all.take(i as int).filter(
                counting(),
            ).push(all[i as int]));
        }
        i = i + 1;
    }
    assert(all.take(i as int) =~= all);
    r
}

/// The path starts at the root.
pub open spec fn is_absolute(path: Seq<char>) -> bool {
    starts_with(path, "/"@)
}

/// Two paths lead to the same place by the same components: slashes at the end
/// or next to each other make no difference.
pub open spec fn same_path(a: Seq<char>, b: Seq<char>) -> bool {
    is_absolute(a) == is_absolute(b) && components(a) == components(b)
}

/// One of the paths is the same as `path`.
pub open spec fn has_path(paths: Seq<Seq<char>>, path: Seq<char>) -> bool {
    exists|i: int| 0 <= i < paths.len() && same_path(#[trigger] paths[i], path)
}

fn same_components(a: &Vec<String>, b: &Vec<String>) -> (r: bool)
    ensures
        r == (texts(a@) == texts(b@)),
{
    assert(texts(a@).len() == a@.len());
    assert(texts(b@).len() == b@.len());
    if a.len() != b.len() {
        return false;
    }
    let mut i: usize = 0;
    while i < a.len()
        invariant
            i <= a.len() == b.len(),
            forall|j: int| 0 <= j < i ==> texts(a@)[j] == texts(b@)[j],
        decreases a.len() - i,
    {
        if !same(a[i].as_str(), b[i].as_str()) {
            assert(texts(a@)[i as int] == a@[i as int]@);
            assert(texts(b@)[i as int] == b@[i as int]@);
            return false;
        }
        i = i + 1;
    }
    assert(texts(a@) =~= texts(b@));
    true
}

/// Whether two paths are the same, as `Path`'s `==` has it on Unix.
pub fn is_same_path(a: &str, b: &str) -> (r: bool)
    ensures
        r == same_path(a@, b@),
{
    begins(a, "/") == begins(b, "/") && same_components(&path_components(a), &path_components(b))
}

/// Whether one of the paths is the same as `path`.
pub fn holds_path(paths: &Vec<String>, path: &str) -> (r: bool)
    ensures
        r == has_path(texts(paths@), path@),
{
    let mut i: usize = 0;
    while i < paths.len()
        invariant
            i <= paths.len(),
            forall|j: int| 0 <= j < i ==> !same_path(#[trigger] texts(paths@)[j], path@),
        decreases paths.len() - i,
    {
        assert(texts(paths@)[i as int] == paths@[i as int]@);
        if is_same_path(paths[i].as_str(), path) {
            return true;
        }
        i = i + 1;
    }
    false
}

/// The last component of a path, as `Path::file_name` gives it on Unix.
pub fn file_name(path: &str) -> (r: Option<String>)
    ensures
        match r {
            Some(n) => base_name(path@) == Some(n@),
            None => base_name(path@) is None,
        },
{
    let c = path_components(path);
    let n: usize = c.len();
    assert(texts(c@).len() == n);
    if n == 0 {
        return None;
    }
    assert(texts(c@)[n - 1] == c@[n - 1]@);
    if same(c[n - 1].as_str(), "..") || same(c[n - 1].as_str(), ".") {
        None
    } else {
        Some(c[n - 1].clone())
    }
}

/// `path` seen from `base`: itself where it is absolute.
pub open spec fn joined_path(base: Seq<char>, path: Seq<char>) -> Seq<char> {
    if starts_with(path, "/"@) || base.len() == 0 {
        path
    } else if ends_with(base, "/"@) {
        base + path
    } else {
        base + "/"@ + path
    }
}

/// `path` seen from `base`, as `Path::join` gives it on Unix.
pub fn join_path(base: &str, path: &str) -> (r: String)
    ensures
        r@ == joined_path(base@, path@),
{
    if begins(path, "/") || base.is_empty() {
        return path.to_owned();
    }
    let mut r = base.to_owned();
    if !ends(base, "/") {
        r.append("/");
    }
    r.append(path);
    r
}

/// What follows the last slash.
pub open spec fn leaf_of(s: Seq<char>) -> Seq<char> {
    pieces(s, '/').last()
}

pub fn leaf(s: &str) -> (r: String)
    ensures
        r@ == leaf_of(s@),
{
    let parts = split(s, '/');
    let n: usize = parts.len();
    assert(texts(parts@)[n - 1] == parts@[n - 1]@);
    parts[n - 1].clone()
}

/// A path without what stands for nothing at its end: slashes, and dots after
/// them. The root keeps its slash.
pub open spec fn settled(path: Seq<char>) -> Seq<char>
    decreases path.len(),
{
    if path.len() > 1 && (path.last() == '/' || (path.last() == '.' && path[path.len() - 2]
        == '/')) {
        settled(path.drop_last())
    } else {
        path
    }
}

/// The path without its last component; none for the root and for an empty
/// path.
pub open spec fn parent_of(path: Seq<char>) -> Option<Seq<char>> {
    let whole = settled(path);
    if whole.len() == 0 || whole == "/"@ {
        None
    } else {
        Some(settled(whole.take(whole.len() - leaf_of(whole).len())))
    }
}

fn settle(path: &str) -> (r: String)
    ensures
        r@ == settled(path@),
{
    let v = chars_of(path);
    let mut n: usize = v.len();
    assert(v@.take(n as int) =~= v@);
    while n > 1 && (v[n - 1] == '/' || (v[n - 1] == '.' && v[n - 2] == '/'))
        invariant
            n <= v.len(),
            settled(v@.take(n as int)) == settled(v@),
        decreases n,
    {
        assert(v@.take(n as int).drop_last() =~= v@.take(n - 1));
        n = n - 1;
    }
    let r = text_of(&v, 0, n);
    assert(r@ =~= v@.take(n as int));
    r
}

/// The path without its last component, as `Path::parent` gives it on Unix.
pub fn parent_path(path: &str) -> (r: Option<String>)
    ensures
        opt_text(r) == parent_of(path@),
{
    let whole = settle(path);
    if whole.as_str().is_empty() || same(whole.as_str(), "/") {
        return None;
    }
    let v = chars_of(whole.as_str());
    let last = leaf(whole.as_str());
    let cut: usize = chars_of(last.as_str()).len();
    proof {
        leaf_ends(whole@);
    }
    let head = text_of(&v, 0, v.len() - cut);
    assert(head@ =~= whole@.take(whole@.len() - leaf_of(whole@).len()));
    Some(settle(head.as_str()))
}

/// A path is what comes before its leaf, and its leaf.
pub proof fn leaf_ends(s: Seq<char>)
    ensures
        leaf_of(s).len() <= s.len(),
        !leaf_of(s).contains('/'),
        ({
            let head = s.take(s.len() - leaf_of(s).len());
            &&& s == head + leaf_of(s)
            &&& head.len() == 0 || head.last() == '/'
            &&& pieces(head, '/') == pieces(s, '/').drop_last().push(Seq::empty())
        }),
    decreases s.len(),
{
    pieces_nonempty(s, '/');
    if s.len() == 0 {
        assert(pieces(s, '/') =~= pieces(s, '/').drop_last().push(Seq::empty()));
        assert(s.take(0) =~= s);
    } else {
        let t = s.drop_last();
        leaf_ends(t);
        pieces_nonempty(t, '/');
        let before = pieces(t, '/');
        if s.last() == '/' {
            assert(s.take(s.len() as int) =~= s);
            assert(s =~= s + Seq::<char>::empty());
            assert(pieces(s, '/').drop_last().push(Seq::empty()) =~= pieces(s, '/'));
        } else {
            let leaf = leaf_of(s);
            assert(leaf == before.last().push(s.last()));
            let head = s.take(s.len() - leaf.len());
            assert(head =~= t.take(t.len() - leaf_of(t).len()));
            assert(s =~= t.push(s.last()));
            assert(t =~= head + leaf_of(t));
            assert(s =~= head + leaf);
            assert(pieces(s, '/').drop_last() =~= before.drop_last());
            assert forall|i: int| 0 <= i < leaf.len() implies leaf[i] != '/' by {
                if i < leaf.len() - 1 {
                    assert(leaf[i] == before.last()[i]);
                }
            }
        }
    }
}

/// No piece holds the separator.
proof fn pieces_have_no_slash(s: Seq<char>, i: int)
    requires
        0 <= i < pieces(s, '/').len(),
    ensures
        !pieces(s, '/')[i].contains('/'),
    decreases s.len(),
{
    if s.len() > 0 {
        let t = s.drop_last();
        pieces_nonempty(t, '/');
        let before = pieces(t, '/');
        if i < before.len() {
            pieces_have_no_slash(t, i);
        }
        let piece = pieces(s, '/')[i];
        if s.last() != '/' && i == before.len() - 1 {
            assert forall|j: int| 0 <= j < piece.len() implies piece[j] != '/' by {
                if j < piece.len() - 1 {
                    assert(piece[j] == before.last()[j]);
                    assert(before.last().contains(before.last()[j]));
                }
            }
        }
    }
}

/// What a filter leaves stood in the list.
proof fn filtered_from(all: Seq<Seq<char>>, i: int) -> (at: int)
    requires
        0 <= i < all.filter(counting()).len(),
    ensures
        0 <= at < all.len(),
        all[at] == all.filter(counting())[i],
        counts(all[at]),
    decreases all.len(),
{
    reveal(Seq::filter);
    let rest = all.drop_last();
    if i < rest.filter(counting()).len() {
        filtered_from(rest, i)
    } else {
        all.len() - 1
    }
}

/// A component is not empty and holds no slash.
pub proof fn component_of(path: Seq<char>, i: int)
    requires
        0 <= i < components(path).len(),
    ensures
        components(path)[i].len() > 0,
        !components(path)[i].contains('/'),
{
    let all = pieces(path, '/');
    reveal_strlit(".");
    let dot = if all[0] == "."@ {
        1int
    } else {
        0
    };
    if i >= dot {
        let at = filtered_from(all, i - dot);
        pieces_have_no_slash(path, at);
    }
}

/// A name after a slash is the last piece.
proof fn pieces_of_named(head: Seq<char>, name: Seq<char>)
    requires
        head.len() == 0 || head.last() == '/',
        !name.contains('/'),
    ensures
        pieces(head + name, '/') == pieces(head, '/').drop_last().push(name),
    decreases name.len(),
{
    pieces_nonempty(head, '/');
    if name.len() == 0 {
        assert(name =~= Seq::empty());
        assert(head + name =~= head);
        assert(pieces(head, '/') =~= pieces(head, '/').drop_last().push(name));
    } else {
        let shorter = name.drop_last();
        assert forall|i: int| 0 <= i < shorter.len() implies shorter[i] != '/' by {
            assert(shorter[i] == name[i]);
        }
        pieces_of_named(head, shorter);
        assert((head + name).drop_last() =~= head + shorter);
        assert(name[name.len() - 1] != '/');
        assert(shorter.push(name.last()) =~= name);
        assert(pieces(head + name, '/') =~= pieces(head, '/').drop_last().push(name));
    }
}

/// What one more piece adds to the components.
proof fn counted_push(all: Seq<Seq<char>>, piece: Seq<char>)
    ensures
        all.len() > 0 ==> counted(all.push(piece)) == if counts(piece) {
            counted(all).push(piece)
        } else {
            counted(all)
        },
        all.len() == 0 && piece != "."@ ==> counted(all.push(piece)) == if counts(piece) {
            seq![piece]
        } else {
            Seq::empty()
        },
{
    reveal(Seq::filter);
    let more = all.push(piece);
    assert(more.drop_last() =~= all);
    assert(more[0] == if all.len() > 0 {
        all[0]
    } else {
        piece
    });
    if all.len() > 0 {
        assert(counted(more) =~= if counts(piece) {
            counted(all).push(piece)
        } else {
            counted(all)
        });
    } else if piece != "."@ {
        assert(all.filter(counting()) =~= Seq::empty());
        assert(counted(more) =~= if counts(piece) {
            seq![piece]
        } else {
            Seq::empty()
        });
    }
}

/// What stands for nothing at the end of a path is no component.
proof fn settling_keeps_components(path: Seq<char>)
    ensures
        components(settled(path)) == components(path),
        path.len() > 0 ==> settled(path).len() > 0 && settled(path)[0] == path[0],
    decreases path.len(),
{
    if settled(path) != path {
        let t = path.drop_last();
        settling_keeps_components(t);
        pieces_nonempty(t, '/');
        let before = pieces(t, '/');
        if path.last() == '/' {
            counted_push(before, Seq::empty());
        } else {
            let u = t.drop_last();
            assert(t.last() == '/');
            pieces_nonempty(u, '/');
            assert(before == pieces(u, '/').push(Seq::empty()));
            reveal_strlit(".");
            assert(before.last().push('.') =~= "."@);
            assert(before.drop_last() =~= pieces(u, '/'));
            counted_push(pieces(u, '/'), Seq::empty());
            counted_push(pieces(u, '/'), "."@);
        }
    }
}

/// The components of a name seen from a path.
proof fn joining_adds_a_component(base: Seq<char>, name: Seq<char>)
    requires
        counts(name),
        !name.contains('/'),
    ensures
        components(joined_path(base, name)) == components(base).push(name),
{
    reveal_strlit("/");
    assert(!starts_with(name, "/"@)) by {
        assert(name.contains(name[0]));
        assert(name.take(1)[0] == name[0]);
    }
    reveal(Seq::filter);
    if base.len() == 0 {
        assert(joined_path(base, name) == name);
        pieces_of_named(Seq::empty(), name);
        assert(Seq::<char>::empty() + name =~= name);
        let none = pieces(Seq::<char>::empty(), '/').drop_last();
        assert(none =~= Seq::empty());
        assert(base =~= Seq::empty());
        counted_push(none, name);
        assert(none.push(Seq::empty()) =~= pieces(base, '/'));
        reveal_strlit(".");
        assert(Seq::<char>::empty() != "."@);
        counted_push(none, Seq::empty());
        assert(seq![name] =~= Seq::<Seq<char>>::empty().push(name));
    } else {
        let head = if base.last() == '/' {
            base
        } else {
            base.push('/')
        };
        assert(ends_with(base, "/"@) == (base.last() == '/')) by {
            if ends_with(base, "/"@) {
                assert(base.last() == "/"@[0]);
            } else if base.last() == '/' {
                assert(base.skip(base.len() - 1) =~= "/"@);
            }
        }
        assert(base + "/"@ =~= base.push('/'));
        assert(joined_path(base, name) =~= head + name);
        pieces_of_named(head, name);
        pieces_nonempty(base, '/');
        let shorter = head.drop_last();
        pieces_nonempty(shorter, '/');
        let before = pieces(shorter, '/');
        assert(pieces(head, '/') == before.push(Seq::empty()));
        assert(pieces(head, '/').drop_last() =~= before);
        counted_push(before, name);
        counted_push(before, Seq::empty());
        if base.last() != '/' {
            assert(shorter =~= base);
        }
    }
}

/// A path next to another has its components but for the last.
pub proof fn siblings_share_components(path: Seq<char>, name: Seq<char>)
    requires
        base_name(path) is Some,
        counts(name),
        !name.contains('/'),
    ensures
        parent_of(path) is Some,
        components(joined_path(parent_of(path)->0, name)) == components(path).drop_last().push(
            name,
        ),
        is_absolute(joined_path(parent_of(path)->0, name)) == is_absolute(path),
{
    let whole = settled(path);
    settling_keeps_components(path);
    reveal_strlit("/");
    reveal_strlit(".");
    reveal(Seq::filter);
    reveal_with_fuel(pieces, 3);
    if whole.len() == 0 {
        assert(whole =~= Seq::empty());
        counted_push(Seq::empty(), Seq::empty());
        assert(pieces(whole, '/') =~= Seq::empty().push(Seq::empty()));
        assert(false);
    }
    if whole == "/"@ {
        assert(whole.drop_last() =~= Seq::empty());
        let one = Seq::<Seq<char>>::empty().push(Seq::empty());
        assert(pieces(whole, '/') =~= one.push(Seq::empty()));
        counted_push(one, Seq::empty());
        counted_push(Seq::empty(), Seq::empty());
        assert(false);
    }
    leaf_ends(whole);
    let leaf = leaf_of(whole);
    let head = whole.take(whole.len() - leaf.len());
    let up = settled(head);
    settling_keeps_components(head);
    pieces_nonempty(whole, '/');
    let before = pieces(whole, '/').drop_last();
    assert(pieces(whole, '/') =~= before.push(leaf));
    settled_ends(path);
    if leaf.len() == 0 {
        assert(whole =~= head);
        assert(whole.len() == 1 ==> whole =~= "/"@);
        assert(false);
    }
    if leaf == "."@ {
        assert(whole.last() == '.');
        if head.len() > 0 {
            assert(whole[whole.len() - 2] == head.last());
            assert(false);
        }
        assert(whole =~= "."@);
        assert(before.len() == 0) by {
            assert(pieces(head, '/') =~= before.push(Seq::empty()));
            assert(head =~= Seq::empty());
        }
        assert(pieces(whole, '/') =~= seq!["."@]);
        let none = Seq::<Seq<char>>::empty();
        assert(none.filter(counting()) =~= none);
        assert(seq!["."@].drop_last() =~= none);
        assert(seq!["."@].last() == "."@ && !counts("."@));
        assert(seq!["."@].filter(counting()) =~= Seq::empty());
        assert(components(whole) =~= seq!["."@]);
        assert(false);
    }
    assert(counts(leaf));
    counted_push(before, leaf);
    counted_push(before, Seq::empty());
    assert(components(whole) =~= components(head).push(leaf));
    assert(components(path).drop_last() =~= components(up));
    joining_adds_a_component(up, name);
    assert(name.contains(name[0]));
    assert(is_absolute(path) == (path.len() > 0 && path[0] == '/')) by {
        if path.len() > 0 && path[0] == '/' {
            assert(path.take(1) =~= "/"@);
        } else if is_absolute(path) {
            assert(path[0] == "/"@[0]);
        }
    }
    let r = joined_path(up, name);
    assert(r.len() > 0);
    assert(is_absolute(r) == (r[0] == '/')) by {
        if r[0] == '/' {
            assert(r.take(1) =~= "/"@);
        } else if is_absolute(r) {
            assert(r[0] == "/"@[0]);
        }
    }
    if head.len() > 0 {
        assert(up[0] == whole[0]);
        assert(r[0] == up[0]);
    } else {
        assert(up =~= Seq::empty());
        assert(whole =~= leaf);
        assert(leaf.contains(leaf[0]));
    }
}

/// What a settled path does not end in.
proof fn settled_ends(path: Seq<char>)
    ensures
        ({
            let s = settled(path);
            s.len() > 1 ==> s.last() != '/' && !(s.last() == '.' && s[s.len() - 2] == '/')
        }),
    decreases path.len(),
{
    if path.len() > 1 && (path.last() == '/' || (path.last() == '.' && path[path.len() - 2]
        == '/')) {
        settled_ends(path.drop_last());
    }
}

} // verus!
