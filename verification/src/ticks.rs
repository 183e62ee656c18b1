//! Angular tick labels in radians: multiples of `2π / n` written as reduced
//! fractions of π (`"0"`, `"π/2"`, `"π"`, `"3π/2"`, …).
use crate::text::{decimal_string, decimal_text};
use vstd::prelude::*;

verus! {

/// Greatest common divisor by Euclid's algorithm; `gcd_of(a, 0) == a`.
pub open spec fn gcd_of(a: nat, b: nat) -> nat
    decreases b,
{
    if b == 0 {
        a
    } else {
        gcd_of(b, a % b)
    }
}

/// The fraction `2i / n` reduced by the greatest common divisor of its
/// terms (by 1 when both are zero), as `(numerator, denominator)`.
pub open spec fn reduced_pi_fraction(i: nat, n: nat) -> (nat, nat) {
    let g = if gcd_of(2 * i, n) == 0 {
        1
    } else {
        gcd_of(2 * i, n)
    };
    ((2 * i) / g, n / g)
}

/// The label of tick `i` of an `n`-tick radian axis: the angle `i · 2π / n`
/// as a reduced multiple of π. The numerator is left out when it is 1, the
/// denominator when it is 1.
pub open spec fn pi_label_text(i: nat, n: nat) -> Seq<char> {
    if i == 0 {
        "0"@
    } else {
        let (num, den) = reduced_pi_fraction(i, n);
        if num == 1 && den == 1 {
            "\u{3c0}"@
        } else if den == 1 {
            decimal_text(num) + "\u{3c0}"@
        } else if num == 1 {
            "\u{3c0}/"@ + decimal_text(den)
        } else {
            decimal_text(num) + "\u{3c0}/"@ + decimal_text(den)
        }
    }
}

/// Greatest common divisor of `a` and `b`, at least 1.
pub fn gcd(a: usize, b: usize) -> (g: usize)
    ensures
        g == (if gcd_of(a as nat, b as nat) == 0 {
            1
        } else {
            gcd_of(a as nat, b as nat)
        }),
{
    let mut a = a;
    let mut b = b;
    let ghost target = gcd_of(a as nat, b as nat);
    while b != 0
        invariant
            gcd_of(a as nat, b as nat) == target,
        decreases b,
    {
        let t = b;
        b = a % b;
        a = t;
    }
    if a > 1 {
        a
    } else {
        1
    }
}

/// Format the `i`-th tick of an `n`-tick radian axis as a π-fraction:
/// `i / n · 2π` with `2i / n` reduced to lowest terms. Examples:
/// `(0, 4) → "0"`, `(1, 4) → "π/2"`, `(2, 4) → "π"`, `(3, 8) → "3π/4"`.
pub fn pi_fraction_label(i: usize, n: usize) -> (s: String)
    requires
        i <= usize::MAX / 2,
    ensures
        s@ == pi_label_text(i as nat, n as nat),
{
    if i == 0 {
        return String::from_str("0");
    }
    let num0 = 2 * i;
    let g = gcd(num0, n);
    let num = num0 / g;
    let den = n / g;
    if num == 1 && den == 1 {
        String::from_str("\u{3c0}")
    } else if den == 1 {
        let mut s = decimal_string(num);
        s.append("\u{3c0}");
        s
    } else if num == 1 {
        let mut s = String::from_str("\u{3c0}/");
        let d = decimal_string(den);
        s.append(d.as_str());
        s
    } else {
        let mut s = decimal_string(num);
        s.append("\u{3c0}/");
        let d = decimal_string(den);
        s.append(d.as_str());
        s
    }
}

/// The labels of all `n` ticks of a radian axis, in order: tick `i` names the
/// angle `i · 2π / n`. Empty for `n == 0`.
pub fn radian_tick_labels(n: usize) -> (labels: Vec<String>)
    requires
        n <= usize::MAX / 2 + 1,
    ensures
        labels.len() == n,
        forall|i: int| 0 <= i < n ==> #[trigger] labels[i]@ == pi_label_text(i as nat, n as nat),
{
    let mut labels: Vec<String> = Vec::new();
    let mut i: usize = 0;
    while i < n
        invariant
            i <= n,
            n <= usize::MAX / 2 + 1,
            labels.len() == i,
            forall|j: int| 0 <= j < i ==> #[trigger] labels[j]@ == pi_label_text(j as nat, n as nat),
        decreases n - i,
    {
        let s = pi_fraction_label(i, n);
        labels.push(s);
        i = i + 1;
    }
    labels
}

// ── number theory of the reduction ───────────────────────────────────────────

proof fn lemma_exact_div(x: nat, d: nat, k: nat)
    requires
        d > 0,
        x == d * k,
    ensures
        x / d == k,
        x % d == 0,
{
    assert(x == k * d + 0) by (nonlinear_arith)
        requires
            x == d * k,
    ;
    vstd::arithmetic::div_mod::lemma_fundamental_div_mod_converse(x as int, d as int, k as int, 0);
}

/// `gcd_of(a, b)` divides both `a` and `b`, and is positive unless both are zero.
proof fn lemma_gcd_divides(a: nat, b: nat)
    requires
        a + b > 0,
    ensures
        gcd_of(a, b) > 0,
        a == gcd_of(a, b) * (a / gcd_of(a, b)),
        b == gcd_of(a, b) * (b / gcd_of(a, b)),
    decreases b,
{
    if b == 0 {
        lemma_exact_div(a, a, 1);
        lemma_exact_div(0, a, 0);
    } else {
        let r = a % b;
        let q = a / b;
        lemma_gcd_divides(b, r);
        let g = gcd_of(a, b);
        assert(g == gcd_of(b, r));
        let bq = b / g;
        let rq = r / g;
        vstd::arithmetic::div_mod::lemma_fundamental_div_mod(a as int, b as int);
        assert(a == g * (bq * q + rq)) by (nonlinear_arith)
            requires
                a == b * q + r,
                b == g * bq,
                r == g * rq,
        ;
        lemma_exact_div(a, g, bq * q + rq);
    }
}

/// Scaling both terms scales the greatest common divisor.
proof fn lemma_gcd_scale(k: nat, x: nat, y: nat)
    requires
        k > 0,
    ensures
        gcd_of(k * x, k * y) == k * gcd_of(x, y),
    decreases y,
{
    if y == 0 {
        assert(k * y == 0) by (nonlinear_arith)
            requires
                y == 0,
        ;
    } else {
        assert(k * y > 0) by (nonlinear_arith)
            requires
                k > 0,
                y > 0,
        ;
        let q = x / y;
        let r = x % y;
        vstd::arithmetic::div_mod::lemma_fundamental_div_mod(x as int, y as int);
        assert(k * x == q * (k * y) + k * r && k * r < k * y) by (nonlinear_arith)
            requires
                x == y * q + r,
                r < y,
                k > 0,
        ;
        vstd::arithmetic::div_mod::lemma_fundamental_div_mod_converse(
            (k * x) as int,
            (k * y) as int,
            q as int,
            (k * r) as int,
        );
        assert((k * x) % (k * y) == k * r);
        lemma_gcd_scale(k, y, r);
    }
}

/// The labels are reduced fractions that name the right angle: for every
/// tick `i > 0` of an axis with `n > 0` ticks, the reduced fraction
/// `num / den` equals `2i / n`, its denominator is positive, and its terms
/// have no common divisor other than 1.
pub proof fn pi_fraction_in_lowest_terms(i: nat, n: nat)
    requires
        i > 0,
        n > 0,
    ensures
        ({
            let (num, den) = reduced_pi_fraction(i, n);
            &&& den > 0
            &&& num * n == den * (2 * i)
            &&& gcd_of(num, den) == 1
        }),
{
    let a = 2 * i;
    let b = n;
    lemma_gcd_divides(a, b);
    let g = gcd_of(a, b);
    let num = a / g;
    let den = b / g;
    assert(reduced_pi_fraction(i, n) == (num, den));
    lemma_gcd_scale(g, num, den);
    assert(g * gcd_of(num, den) == g);
    assert(gcd_of(num, den) == 1) by (nonlinear_arith)
        requires
            g > 0,
            g * gcd_of(num, den) == g,
    ;
    assert(den > 0) by (nonlinear_arith)
        requires
            b == g * den,
            b > 0,
    ;
    assert(num * n == den * (2 * i)) by (nonlinear_arith)
        requires
            a == g * num,
            b == g * den,
            a == 2 * i,
            b == n,
    ;
}


/// Every label names its angle: for a tick `i > 0` of an axis with `n > 0`
/// ticks, the label reads `[a]π[/b]`, where a missing numerator or
/// denominator means 1, with `a / b` equal to `2i / n` and `a`, `b` sharing
/// no factor other than 1.
pub proof fn pi_label_names_its_angle(i: nat, n: nat)
    requires
        i > 0,
        n > 0,
    ensures
        exists|a: nat, b: nat|
            {
                &&& a >= 1
                &&& b >= 1
                &&& a * n == b * (2 * i)
                &&& gcd_of(a, b) == 1
                &&& #[trigger] pi_label_text(i, n) == (if a == 1 {
                    Seq::<char>::empty()
                } else {
                    decimal_text(a)
                }) + "\u{3c0}"@ + (if b == 1 {
                    Seq::<char>::empty()
                } else {
                    "/"@ + decimal_text(b)
                })
            },
{
    pi_fraction_in_lowest_terms(i, n);
    let (num, den) = reduced_pi_fraction(i, n);
    assert(num >= 1) by (nonlinear_arith)
        requires
            num * n == den * (2 * i),
            den > 0,
            i > 0,
            n > 0,
    ;
    reveal_strlit("\u{3c0}");
    reveal_strlit("\u{3c0}/");
    reveal_strlit("/");
    let text = (if num == 1 {
        Seq::<char>::empty()
    } else {
        decimal_text(num)
    }) + "\u{3c0}"@ + (if den == 1 {
        Seq::<char>::empty()
    } else {
        "/"@ + decimal_text(den)
    });
    assert(pi_label_text(i, n) =~= text);
}

proof fn lemma_common_divisor_divides_gcd(a: nat, b: nat, d: nat)
    requires
        d > 0,
        a % d == 0,
        b % d == 0,
    ensures
        gcd_of(a, b) % d == 0,
    decreases b,
{
    if b > 0 {
        let q = a / b;
        let r = a % b;
        vstd::arithmetic::div_mod::lemma_fundamental_div_mod(a as int, b as int);
        let ka = a / d;
        let kb = b / d;
        vstd::arithmetic::div_mod::lemma_fundamental_div_mod(a as int, d as int);
        vstd::arithmetic::div_mod::lemma_fundamental_div_mod(b as int, d as int);
        assert(r == d * (ka - q * kb)) by (nonlinear_arith)
            requires
                a == b * q + r,
                a == d * ka,
                b == d * kb,
        ;
        assert(ka - q * kb >= 0) by (nonlinear_arith)
            requires
                r == d * (ka - q * kb),
                r >= 0,
                d > 0,
        ;
        lemma_exact_div(r, d, (ka - q * kb) as nat);
        lemma_common_divisor_divides_gcd(b, r, d);
    }
}

/// [`gcd`] computes the greatest common divisor: for `a`, `b` not both zero
/// its result divides both, and every common divisor of `a` and `b` divides
/// it; for `a == b == 0` it is 1.
pub proof fn gcd_is_greatest_common_divisor(a: nat, b: nat, d: nat)
    ensures
        a + b > 0 ==> gcd_of(a, b) > 0 && a % gcd_of(a, b) == 0 && b % gcd_of(a, b) == 0,
        a + b > 0 && d > 0 && a % d == 0 && b % d == 0 ==> gcd_of(a, b) % d == 0,
        a + b == 0 ==> gcd_of(a, b) == 0,
{
    if a + b > 0 {
        lemma_gcd_divides(a, b);
        let g = gcd_of(a, b);
        lemma_exact_div(a, g, a / g);
        lemma_exact_div(b, g, b / g);
        if d > 0 && a % d == 0 && b % d == 0 {
            lemma_common_divisor_divides_gcd(a, b, d);
        }
    }
}

} // verus!
