//! Numbers as `f64` holds them. A double has 53 significant bits, and each
//! operation gives the double nearest to the exact result. Here doubles are
//! whole numbers of 2^-70, which is finer than any double that the scrollbar
//! meets but zero.
use vstd::arithmetic::div_mod::{
    lemma_div_denominator, lemma_div_is_ordered, lemma_div_multiples_vanish_quotient,
    lemma_fundamental_div_mod, lemma_fundamental_div_mod_converse, lemma_truncate_middle,
};
use vstd::arithmetic::power2::{lemma2_to64, lemma2_to64_rest, lemma_pow2_adds, pow2};
use vstd::prelude::*;

verus! {

/// Numbers below this one fit in the significant bits of a double.
pub const MANTISSA: u128 = 0x20_0000_0000_0000;

/// What stands for 1.
pub const UNIT: u128 = 0x40_0000_0000_0000_0000;

/// The distance between doubles about `n`.
pub open spec fn step(n: nat) -> nat
    decreases n,
{
    if n < MANTISSA {
        1
    } else {
        2 * step(n / 2)
    }
}

/// The double nearest to `num / den`; of two that are equally near, the one
/// with the even last bit.
pub open spec fn nearest(num: nat, den: nat) -> nat {
    let gap = step(num / den);
    let q = num / (den * gap);
    let r = num % (den * gap);
    if 2 * r < den * gap || (2 * r == den * gap && q % 2 == 0) {
        q * gap
    } else {
        (q + 1) * gap
    }
}

/// The double product of `max` and what is left of 1 after `rel / span`,
/// rounded to a whole number, halves up.
pub open spec fn scaled(max: nat, rel: nat, span: nat) -> nat {
    let part = nearest(rel * UNIT as nat, span);
    let rest = nearest(
        (if part < UNIT {
            UNIT - part
        } else {
            0
        }) as nat,
        1,
    );
    let product = nearest(nearest(max, 1) * rest, 1);
    (2 * product + UNIT as nat) / (2 * UNIT as nat)
}

proof fn step_positive(n: nat)
    ensures
        step(n) >= 1,
    decreases n,
{
    if n >= MANTISSA {
        step_positive(n / 2);
    }
}

/// The significant bits of a number.
proof fn bits_of(n: nat)
    ensures
        n / step(n) < MANTISSA,
        step(n) > 1 ==> n / step(n) >= MANTISSA / 2,
        step(n) <= n || step(n) == 1,
    decreases n,
{
    step_positive(n);
    if n >= MANTISSA {
        let half = n / 2;
        bits_of(half);
        step_positive(half);
        lemma_div_denominator(n as int, 2, step(half) as int);
        if step(half) == 1 {
            assert(half / step(half) == half) by (nonlinear_arith)
                requires
                    step(half) == 1,
            ;
        }
    } else {
        assert(n / step(n) == n) by (nonlinear_arith)
            requires
                step(n) == 1,
        ;
    }
}

/// The distance between doubles is a power of two.
proof fn step_divides(n: nat, j: nat) -> (t: nat)
    requires
        n < MANTISSA * pow2(j),
    ensures
        pow2(j) == t * step(n),
    decreases j,
{
    vstd::arithmetic::power2::lemma_pow2_pos(j);
    if n < MANTISSA {
        assert(pow2(j) == pow2(j) * step(n)) by (nonlinear_arith)
            requires
                step(n) == 1,
        ;
        pow2(j)
    } else if j == 0 {
        lemma2_to64();
        assert(false);
        0
    } else {
        vstd::arithmetic::power2::lemma_pow2_unfold(j);
        let half = pow2((j - 1) as nat);
        assert(pow2(j) == 2 * half);
        assert(n < 2 * (MANTISSA * half)) by (nonlinear_arith)
            requires
                n < MANTISSA * pow2(j),
                pow2(j) == 2 * half,
        ;
        let t = step_divides(n / 2, (j - 1) as nat);
        assert(pow2(j) == t * step(n)) by (nonlinear_arith)
            requires
                pow2(j) == 2 * half,
                half == t * step(n / 2),
                step(n) == 2 * step(n / 2),
        ;
        t
    }
}

proof fn unit_is_a_power()
    ensures
        UNIT == pow2(70),
{
    lemma2_to64();
    lemma2_to64_rest();
    lemma_pow2_adds(64, 6);
}

/// Doubling changes no significant bit.
proof fn nearest_doubles(a: nat)
    ensures
        nearest(2 * a, 1) == 2 * nearest(a, 1),
{
    step_positive(a);
    step_positive(2 * a);
    let g = step(a);
    let h = step(2 * a);
    assert((2 * a) / 1 == 2 * a && a / 1 == a);
    assert(1 * g == g && 1 * h == h);
    if 2 * a < MANTISSA {
        whole(a);
        whole(2 * a);
    } else {
        assert((2 * a) / 2 == a);
        assert(h == 2 * g);
        lemma_div_multiples_vanish_quotient(2, a as int, g as int);
        lemma_truncate_middle(a as int, 2, g as int);
        let q = a / g;
        assert(q * h == 2 * (q * g)) by (nonlinear_arith)
            requires
                h == 2 * g,
        ;
        assert((q + 1) * h == 2 * ((q + 1) * g)) by (nonlinear_arith)
            requires
                h == 2 * g,
        ;
    }
}

/// A number that fits is a double.
proof fn whole(a: nat)
    requires
        a < MANTISSA,
    ensures
        nearest(a, 1) == a,
{
    assert(step(a) == 1);
    assert(a / 1 == a && a % 1 == 0);
}

/// Doubles keep their bits when they are multiplied by a power of two.
proof fn nearest_shifts(a: nat, j: nat)
    ensures
        nearest(a * pow2(j), 1) == nearest(a, 1) * pow2(j),
    decreases j,
{
    if j == 0 {
        lemma2_to64();
        assert(a * 1 == a);
    } else {
        vstd::arithmetic::power2::lemma_pow2_unfold(j);
        let half = pow2((j - 1) as nat);
        nearest_shifts(a, (j - 1) as nat);
        nearest_doubles(a * half);
        assert(a * pow2(j) == 2 * (a * half)) by (nonlinear_arith)
            requires
                pow2(j) == 2 * half,
        ;
        assert(nearest(a, 1) * pow2(j) == 2 * (nearest(a, 1) * half)) by (nonlinear_arith)
            requires
                pow2(j) == 2 * half,
        ;
    }
}

/// The distance between doubles as a power of two.
proof fn step_exponent(n: nat) -> (j: nat)
    ensures
        step(n) == pow2(j),
    decreases n,
{
    lemma2_to64();
    if n < MANTISSA {
        0
    } else {
        let j = step_exponent(n / 2);
        vstd::arithmetic::power2::lemma_pow2_unfold(j + 1);
        j + 1
    }
}

/// Rounds `num / den` to a double: its significant bits, and what the last of
/// them counts.
fn round(num: u128, den: u128) -> (r: (u128, u128))
    requires
        0 < den <= 0xffff,
        num < 0x4000_0000_0000_0000_0000_0000_0000_0000,
    ensures
        r.0 * r.1 == nearest(num as nat, den as nat),
        r.0 <= MANTISSA,
        r.1 == step((num / den) as nat),
        r.1 <= num / den + 1,
{
    let n: u128 = num / den;
    let mut top: u128 = n;
    let mut gap: u128 = 1;
    assert(n / gap == n) by (nonlinear_arith)
        requires
            gap == 1,
    ;
    while top >= MANTISSA
        invariant
            top == n / gap,
            gap >= 1,
            n <= num,
            num < 0x4000_0000_0000_0000_0000_0000_0000_0000,
            step(n as nat) == gap * step(top as nat),
            gap <= n + 1,
        decreases top,
    {
        proof {
            lemma_div_denominator(n as int, gap as int, 2);
            lemma_fundamental_div_mod(n as int, gap as int);
            assert(gap * 2 <= n) by (nonlinear_arith)
                requires
                    n >= gap * top,
                    top >= 2,
                    gap >= 1,
            ;
            let half = step((top / 2) as nat) as int;
            assert(gap * (2 * half) == (gap * 2) * half) by (nonlinear_arith);
        }
        top = top / 2;
        gap = gap * 2;
    }
    proof {
        step_positive(n as nat);
        assert(gap * 1 == gap);
        lemma_div_denominator(num as int, den as int, gap as int);
        lemma_fundamental_div_mod(num as int, (den * gap) as int);
        assert(0 < den * gap && den * gap <= num + den) by (nonlinear_arith)
            requires
                den > 0,
                gap >= 1,
                n == num / den,
                gap <= n + 1,
        ;
    }
    let unit: u128 = den * gap;
    let left: u128 = num % unit;
    let over: u128 = unit - left;
    if left < over || (left == over && top % 2 == 0) {
        (top, gap)
    } else {
        (top + 1, gap)
    }
}

/// Computes the share of `max` that is left after `rel / span`, as doubles give
/// it.
pub fn share(max: usize, rel: u16, span: u16) -> (r: u128)
    requires
        0 < span,
        rel <= span,
    ensures
        r == scaled(max as nat, rel as nat, span as nat),
{
    let num: u128 = rel as u128 * UNIT;
    let den: u128 = span as u128;
    let (q, gap) = round(num, den);
    proof {
        assert(num / den <= UNIT) by (nonlinear_arith)
            requires
                0 < den,
                num == rel * UNIT,
                rel <= den,
        ;
        part_gap((num / den) as nat);
        assert(q * gap <= MANTISSA * 0x4_0000) by (nonlinear_arith)
            requires
                q <= MANTISSA,
                0 <= gap <= 0x4_0000,
        ;
    }
    let part: u128 = q * gap;
    let room: u128 = if part < UNIT {
        UNIT - part
    } else {
        0
    };
    let (w, fine) = round(room, 1);
    let (mq, mgap) = round(max as u128, 1);
    proof {
        bits_of(max as nat);
        whole_gap(max as u128);
        assert(mq * mgap <= MANTISSA * 0x1000) by (nonlinear_arith)
            requires
                mq <= MANTISSA,
                0 <= mgap <= 0x1000,
        ;
    }
    let m: u128 = mq * mgap;
    assert(m * w <= (MANTISSA * 0x1000) * MANTISSA) by (nonlinear_arith)
        requires
            m <= MANTISSA * 0x1000,
            w <= MANTISSA,
    ;
    let (pq, pgap) = round(m * w, 1);
    proof {
        product_gap((m * w) as nat);
        assert(pq * pgap <= MANTISSA * (MANTISSA * 0x2000)) by (nonlinear_arith)
            requires
                pq <= MANTISSA,
                0 <= pgap <= MANTISSA * 0x2000,
        ;
    }
    let p: u128 = pq * pgap;
    proof {
        unit_is_a_power();
        assert(room < MANTISSA * pow2(70)) by (nonlinear_arith)
            requires
                room <= UNIT,
                UNIT == pow2(70),
                UNIT > 0,
        ;
        let t = step_divides(room as nat, 70);
        let j = step_exponent(room as nat);
        nearest_shifts((m * w) as nat, j);
        let rest = nearest(room as nat, 1);
        assert(m * rest == (m * w) * fine) by (nonlinear_arith)
            requires
                rest == w * fine,
        ;
        step_positive(room as nat);
        assert(UNIT / fine == t) by {
            lemma_fundamental_div_mod_converse(UNIT as int, fine as int, t as int, 0);
        }
        assert(t > 0) by (nonlinear_arith)
            requires
                UNIT == t * fine,
                UNIT > 0,
        ;
        lemma_div_multiples_vanish_quotient(fine as int, (2 * p + t) as int, (2 * t) as int);
        assert(fine * (2 * p + t) == 2 * (p * fine) + UNIT) by (nonlinear_arith)
            requires
                UNIT == t * fine,
        ;
        assert(fine * (2 * t) == 2 * UNIT) by (nonlinear_arith)
            requires
                UNIT == t * fine,
        ;
    }
    let t: u128 = UNIT / fine;
    (2 * p + t) / (2 * t)
}

proof fn whole_gap(n: u128)
    requires
        n <= 0xffff_ffff_ffff_ffff,
    ensures
        step(n as nat) <= 0x1000,
{
    bits_of(n as nat);
    let g = step(n as nat);
    if g > 1 {
        lemma_fundamental_div_mod(n as int, g as int);
        assert(g <= 0x1000) by (nonlinear_arith)
            requires
                n as int >= g * (n as int / g as int),
                n as int / g as int >= 0x10_0000_0000_0000,
                n <= 0xffff_ffff_ffff_ffff,
                g > 0,
        ;
    }
}

proof fn part_gap(n: nat)
    requires
        n <= UNIT,
    ensures
        step(n) <= 0x4_0000,
{
    bits_of(n);
    let g = step(n);
    if g > 1 {
        lemma_fundamental_div_mod(n as int, g as int);
        assert(g <= 0x4_0000) by (nonlinear_arith)
            requires
                n as int >= g * (n as int / g as int),
                n as int / g as int >= 0x10_0000_0000_0000,
                n <= UNIT,
                g > 0,
        ;
    }
}

proof fn product_gap(n: nat)
    requires
        n <= (MANTISSA * 0x1000) * MANTISSA,
    ensures
        step(n) <= MANTISSA * 0x2000,
{
    bits_of(n);
    let g = step(n);
    if g > 1 {
        lemma_fundamental_div_mod(n as int, g as int);
        assert(g <= MANTISSA * 0x2000) by (nonlinear_arith)
            requires
                n as int >= g * (n as int / g as int),
                n as int / g as int >= 0x10_0000_0000_0000,
                n <= (MANTISSA * 0x1000) * MANTISSA,
                g > 0,
        ;
    }
}

proof fn step_is_monotone(a: nat, b: nat)
    requires
        a <= b,
    ensures
        step(a) <= step(b),
        step(a) < step(b) ==> 2 * step(a) <= step(b),
    decreases b,
{
    step_positive(b);
    if a >= MANTISSA {
        step_is_monotone(a / 2, b / 2);
    } else if b >= MANTISSA {
        step_positive(b / 2);
    }
}

/// A larger number has no smaller double.
proof fn nearest_is_monotone(a: nat, b: nat, d: nat)
    requires
        0 < d,
        a <= b,
    ensures
        nearest(a, d) <= nearest(b, d),
{
    let (m, n) = (a / d, b / d);
    lemma_div_is_ordered(a as int, b as int, d as int);
    step_positive(m);
    step_positive(n);
    step_is_monotone(m, n);
    let (g, h) = (step(m), step(n));
    lemma_div_denominator(a as int, d as int, g as int);
    lemma_div_denominator(b as int, d as int, h as int);
    let (p, q) = (a / (d * g), b / (d * h));
    bits_of(m);
    bits_of(n);
    if g == h {
        let u = d * g;
        assert(u > 0) by (nonlinear_arith)
            requires
                u == d * g,
                d > 0,
                g > 0,
        ;
        lemma_div_is_ordered(a as int, b as int, u as int);
        lemma_fundamental_div_mod(a as int, u as int);
        lemma_fundamental_div_mod(b as int, u as int);
        if p < q {
            assert((p + 1) * g <= q * g && p * g <= (p + 1) * g && q * g <= (q + 1) * g)
                by (nonlinear_arith)
                requires
                    p + 1 <= q,
                    g > 0,
            ;
        } else {
            assert(p * g <= (p + 1) * g) by (nonlinear_arith)
                requires
                    g > 0,
            ;
        }
    } else {
        assert((p + 1) * g <= q * h && p * g <= (p + 1) * g && q * h <= (q + 1) * h)
            by (nonlinear_arith)
            requires
                p + 1 <= MANTISSA,
                2 * q >= MANTISSA,
                2 * g <= h,
                g > 0,
                h > 0,
                MANTISSA > 0,
        ;
    }
}

/// The higher the share that is taken, the lower what is left.
pub proof fn scaled_is_monotone(max: nat, rel: nat, lower: nat, span: nat)
    requires
        0 < span,
        rel <= lower,
    ensures
        scaled(max, lower, span) <= scaled(max, rel, span),
{
    assert(rel * UNIT <= lower * UNIT) by (nonlinear_arith)
        requires
            rel <= lower,
    ;
    nearest_is_monotone(rel * UNIT as nat, lower * UNIT as nat, span);
    let more = nearest(rel * UNIT as nat, span);
    let less = nearest(lower * UNIT as nat, span);
    let room = |part: nat|
        (if part < UNIT {
            UNIT - part
        } else {
            0
        }) as nat;
    nearest_is_monotone(room(less), room(more), 1);
    let m = nearest(max, 1);
    let a = nearest(room(less), 1);
    let b = nearest(room(more), 1);
    assert(m * a <= m * b) by (nonlinear_arith)
        requires
            a <= b,
    ;
    nearest_is_monotone(m * a, m * b, 1);
    lemma_div_is_ordered(
        (2 * nearest(m * a, 1) + UNIT) as int,
        (2 * nearest(m * b, 1) + UNIT) as int,
        (2 * UNIT) as int,
    );
}

/// Where nothing is taken all is left, and where all is taken nothing.
pub proof fn scaled_ends(max: nat, span: nat)
    requires
        0 < span,
    ensures
        scaled(max, span, span) == 0,
        max < MANTISSA ==> scaled(max, 0, span) == max,
{
    unit_is_a_power();
    let unit = UNIT as nat;
    whole(0);
    whole(1);
    nearest_shifts(1, 70);
    assert(nearest(unit, 1) == unit);
    // All taken.
    let g = step(unit);
    step_positive(unit);
    assert(unit < MANTISSA * pow2(70)) by (nonlinear_arith)
        requires
            unit == pow2(70),
            unit > 0,
    ;
    let t = step_divides(unit, 70);
    lemma_fundamental_div_mod_converse(unit as int, g as int, t as int, 0);
    assert((span * unit) / span == unit) by (nonlinear_arith)
        requires
            span > 0,
    ;
    lemma_div_multiples_vanish_quotient(span as int, unit as int, g as int);
    lemma_truncate_middle(unit as int, span as int, g as int);
    assert(span * 0 == 0);
    assert(0 < span * g) by (nonlinear_arith)
        requires
            span > 0,
            g > 0,
    ;
    assert(nearest(span * unit, span) == unit);
    let rest = nearest(0, 1);
    assert(nearest(max, 1) * rest == 0) by (nonlinear_arith)
        requires
            rest == 0,
    ;
    assert((2 * 0 + unit) / (2 * unit) == 0) by (nonlinear_arith)
        requires
            unit > 0,
    ;
    assert(scaled(max, span, span) == 0);
    // Nothing taken.
    assert(0 * unit == 0);
    assert(0nat / span == 0 && 0nat % span == 0) by (nonlinear_arith)
        requires
            span > 0,
    ;
    assert(span * 1 == span);
    assert(nearest(0, span) == 0);
    if max < MANTISSA {
        whole(max);
        nearest_shifts(max, 70);
        assert((2 * (max * unit) + unit) / (2 * unit) == max) by (nonlinear_arith)
            requires
                unit > 0,
        ;
    }
}

/// Dividing by what a number was multiplied with rounds as if neither was done.
proof fn nearest_cancels(q: nat, den: nat)
    requires
        den > 0,
    ensures
        nearest(q * den, den) == nearest(q, 1),
{
    let g = step(q);
    step_positive(q);
    assert((q * den) / den == q) by (nonlinear_arith)
        requires
            den > 0,
    ;
    assert(q * den == den * q) by (nonlinear_arith);
    lemma_div_multiples_vanish_quotient(den as int, q as int, g as int);
    lemma_truncate_middle(q as int, den as int, g as int);
    assert(q / 1 == q);
    assert(1 * g == g);
    let r = q % g;
    assert(2 * (den * r) < den * g <==> 2 * r < g) by (nonlinear_arith)
        requires
            den > 0,
    ;
    assert(2 * (den * r) == den * g <==> 2 * r == g) by (nonlinear_arith)
        requires
            den > 0,
    ;
}

/// Law: where the track has as many steps as a power of two, nothing is lost on the
/// way: what is left is its exact share, rounded to the nearest line, halves up.
pub proof fn scaled_rounds_to_the_nearest(max: nat, rel: nat, j: nat)
    requires
        j <= 16,
        rel <= pow2(j),
        max < MANTISSA,
        max * (pow2(j) - rel) < MANTISSA,
    ensures
        scaled(max, rel, pow2(j)) == (2 * (max * (pow2(j) - rel)) + pow2(j)) / (2 * pow2(j) as int),
{
    unit_is_a_power();
    lemma2_to64();
    let unit = UNIT as nat;
    let span = pow2(j);
    let w = pow2((70 - j) as nat);
    lemma_pow2_adds(j, (70 - j) as nat);
    assert(unit == span * w);
    vstd::arithmetic::power2::lemma_pow2_pos(j);
    vstd::arithmetic::power2::lemma_pow2_pos((70 - j) as nat);
    if j < 16 {
        vstd::arithmetic::power2::lemma_pow2_strictly_increases(j, 16);
    }
    let left = (span - rel) as nat;
    whole(rel);
    whole(left);
    whole(max);
    // What is taken.
    assert(rel * unit == (rel * w) * span) by (nonlinear_arith)
        requires
            unit == span * w,
    ;
    nearest_cancels(rel * w, span);
    nearest_shifts(rel, (70 - j) as nat);
    let part = nearest(rel * unit, span);
    assert(part == rel * w);
    // What is left.
    assert(left * w == unit - part) by (nonlinear_arith)
        requires
            unit == span * w,
            part == rel * w,
            left == span - rel,
    ;
    assert(part <= unit) by (nonlinear_arith)
        requires
            unit == span * w,
            part == rel * w,
            rel <= span,
    ;
    nearest_shifts(left, (70 - j) as nat);
    let rest = nearest((unit - part) as nat, 1);
    assert(rest == left * w);
    // Their share of the lines.
    let m = max * left;
    assert(m == max * (span - rel));
    whole(m);
    assert(max * rest == m * w) by (nonlinear_arith)
        requires
            rest == left * w,
            m == max * left,
    ;
    nearest_shifts(m, (70 - j) as nat);
    let product = nearest(max * rest, 1);
    assert(product == m * w);
    assert(2 * product + unit == w * (2 * m + span)) by (nonlinear_arith)
        requires
            product == m * w,
            unit == span * w,
    ;
    assert(2 * unit == w * (2 * span)) by (nonlinear_arith)
        requires
            unit == span * w,
    ;
    lemma_div_multiples_vanish_quotient(w as int, (2 * m + span) as int, (2 * span) as int);
}

} // verus!
