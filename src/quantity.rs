use vstd::prelude::*;
use vstd::string::*;

verus! {

/// Millionths of a whole unit (kilogram, hour, watt, currency per unit)
/// that make up one whole unit.
pub const QUANTITY_SCALE: i64 = 1_000_000;

/// The largest magnitude a quantity may have, in millionths: one million
/// whole units.
pub const MAX_QUANTITY_MICROS: i64 = 1_000_000_000_000;

/// The largest magnitude a quantity may have, in whole units.
pub const MAX_WHOLE_UNITS: i64 = 1_000_000;

/// The most digits a decimal text may carry after its point.
pub const MAX_FRACTION_DIGITS: usize = 6;

/// Whether `c` is one of the decimal digits `0` to `9`.
pub open spec fn is_digit(c: char) -> bool {
    '0' <= c && c <= '9'
}

/// The value of the decimal digit `c`.
pub open spec fn digit_value(c: char) -> int {
    c as int - '0' as int
}

/// Whether every character of `t` is a decimal digit.
pub open spec fn all_digits(t: Seq<char>) -> bool {
    forall|i: int| 0 <= i < t.len() ==> is_digit(#[trigger] t[i])
}

/// The number that the digits `t` spell in base ten (zero for no digits).
pub open spec fn digits_value(t: Seq<char>) -> int
    decreases t.len(),
{
    if t.len() == 0 {
        0
    } else {
        digits_value(t.drop_last()) * 10 + digit_value(t.last())
    }
}

/// Ten to the power `n`.
pub open spec fn pow10(n: nat) -> nat
    decreases n,
{
    if n == 0 {
        1
    } else {
        10 * pow10((n - 1) as nat)
    }
}

/// The length of the leading sign of `s`: one for `+` or `-`, else zero.
pub open spec fn sign_len(s: Seq<char>) -> int {
    if s.len() > 0 && (s[0] == '+' || s[0] == '-') {
        1
    } else {
        0
    }
}

/// Whether `s` starts with a minus sign.
pub open spec fn is_negative_text(s: Seq<char>) -> bool {
    s.len() > 0 && s[0] == '-'
}

/// The index of the first `.` of `s` at or after `i`, or the length of `s`
/// when there is none.
pub open spec fn point_from(s: Seq<char>, i: int) -> int
    decreases s.len() - i,
{
    if i < 0 || i >= s.len() || s[i] == '.' {
        if i < 0 { 0 } else { i }
    } else {
        point_from(s, i + 1)
    }
}

/// The index of the decimal point of `s` (its length when there is none).
pub open spec fn point_index(s: Seq<char>) -> int {
    point_from(s, sign_len(s))
}

/// The characters of `s` between its sign and its point.
pub open spec fn whole_text(s: Seq<char>) -> Seq<char> {
    s.subrange(sign_len(s), point_index(s))
}

/// The characters of `s` after its point (none when there is no point).
pub open spec fn fraction_text(s: Seq<char>) -> Seq<char> {
    if point_index(s) < s.len() {
        s.subrange(point_index(s) + 1, s.len() as int)
    } else {
        Seq::empty()
    }
}

/// Whether `s` is a decimal number: an optional sign, digits, and
/// optionally a point followed by at most six digits, with at least one
/// digit in all (`12`, `-0.5`, `+.25`, `3.`).
pub open spec fn is_decimal_text(s: Seq<char>) -> bool {
    &&& all_digits(whole_text(s))
    &&& all_digits(fraction_text(s))
    &&& whole_text(s).len() + fraction_text(s).len() > 0
    &&& fraction_text(s).len() <= MAX_FRACTION_DIGITS
}

/// The number that the decimal text `s` spells, in millionths.
pub open spec fn decimal_micros(s: Seq<char>) -> int {
    let f = fraction_text(s);
    let magnitude = digits_value(whole_text(s)) * QUANTITY_SCALE + digits_value(f) * pow10(
        (MAX_FRACTION_DIGITS - f.len()) as nat,
    );
    if is_negative_text(s) {
        -magnitude
    } else {
        magnitude
    }
}

/// Whether `s` is a decimal number whose value a quantity can hold.
pub open spec fn is_quantity_text(s: Seq<char>) -> bool {
    is_decimal_text(s) && -MAX_QUANTITY_MICROS <= decimal_micros(s) <= MAX_QUANTITY_MICROS
}

/// The value of the decimal text `s` in millionths where a quantity can
/// hold it, else `default`.
pub open spec fn text_value_or(s: Seq<char>, default: int) -> int {
    if is_quantity_text(s) {
        decimal_micros(s)
    } else {
        default
    }
}

proof fn lemma_digits_value_nonneg(t: Seq<char>)
    requires
        all_digits(t),
    ensures
        digits_value(t) >= 0,
    decreases t.len(),
{
    if t.len() > 0 {
        lemma_digits_value_nonneg(t.drop_last());
    }
}

proof fn lemma_digits_value_prefix(t: Seq<char>, k: int)
    requires
        all_digits(t),
        0 <= k <= t.len(),
    ensures
        digits_value(t.subrange(0, k)) <= digits_value(t),
    decreases t.len(),
{
    if k < t.len() {
        lemma_digits_value_prefix(t.drop_last(), k);
        assert(t.drop_last().subrange(0, k) =~= t.subrange(0, k));
        lemma_digits_value_nonneg(t.drop_last());
    } else {
        assert(t.subrange(0, k) =~= t);
    }
}

proof fn lemma_digits_value_step(s: Seq<char>, a: int, i: int)
    requires
        0 <= a <= i < s.len(),
    ensures
        digits_value(s.subrange(a, i + 1)) == digits_value(s.subrange(a, i)) * 10 + digit_value(
            s[i],
        ),
{
    assert(s.subrange(a, i + 1).drop_last() =~= s.subrange(a, i));
}

proof fn lemma_pow10_six()
    ensures
        pow10(6) == 1_000_000,
{
    reveal_with_fuel(pow10, 7);
}

proof fn lemma_pow10_mono(k: nat, j: nat)
    requires
        k <= j,
    ensures
        pow10(k) <= pow10(j),
    decreases j,
{
    if k < j {
        lemma_pow10_mono(k, (j - 1) as nat);
    }
}

/// A non-integral input of the cost model (a mass, a price, a duration, a
/// power), held exactly as a whole number of millionths of its unit.
#[derive(Clone, Copy, Debug, PartialEq, Eq, Structural)]
pub struct Quantity {
    pub(crate) micros: i64,
}

impl View for Quantity {
    type V = int;

    /// The quantity in millionths of its unit.
    closed spec fn view(&self) -> int {
        self.micros as int
    }
}

impl Quantity {
    #[verifier::type_invariant]
    spec fn in_range(self) -> bool {
        -MAX_QUANTITY_MICROS <= self.micros <= MAX_QUANTITY_MICROS
    }

    /// The quantity zero.
    pub fn zero() -> (r: Quantity)
        ensures
            r@ == 0,
    {
        Quantity { micros: 0 }
    }

    /// The quantity that holds `micros` millionths of a unit, if its
    /// magnitude is at most `MAX_QUANTITY_MICROS`.
    pub fn from_micros(micros: i64) -> (r: Option<Quantity>)
        ensures
            r is Some <==> -MAX_QUANTITY_MICROS <= micros <= MAX_QUANTITY_MICROS,
            r is Some ==> r->0@ == micros,
    {
        if -MAX_QUANTITY_MICROS <= micros && micros <= MAX_QUANTITY_MICROS {
            Some(Quantity { micros })
        } else {
            None
        }
    }

    /// The quantity of `whole` units.
    pub fn from_whole(whole: i64) -> (r: Quantity)
        requires
            -MAX_WHOLE_UNITS <= whole <= MAX_WHOLE_UNITS,
        ensures
            r@ == whole * QUANTITY_SCALE,
    {
        Quantity { micros: whole * QUANTITY_SCALE }
    }

    /// Reads the decimal text `s` (an optional sign, digits, and optionally
    /// a point with at most six digits after it), if its value lies within
    /// the range of a quantity.
    pub fn parse(s: &str) -> (r: Option<Quantity>)
        ensures
            r is Some <==> is_quantity_text(s@),
            r is Some ==> r->0@ == decimal_micros(s@),
    {
        let ghost t = s@;
        let n = s.unicode_len();
        let mut start: usize = 0;
        let mut negative = false;
        if n > 0 {
            let c = s.get_char(0);
            if c == '+' || c == '-' {
                start = 1;
                negative = c == '-';
            }
        }
        assert(start == sign_len(t));
        assert(negative == is_negative_text(t));
        // Find the decimal point.
        let mut p: usize = start;
        while p < n && s.get_char(p) != '.'
            invariant
                t == s@,
                n == t.len(),
                start <= p <= n,
                point_from(t, start as int) == point_from(t, p as int),
            decreases n - p,
        {
            p = p + 1;
        }
        assert(p == point_index(t));
        let ghost w = whole_text(t);
        // The digits before the point.
        let mut whole: i64 = 0;
        let mut i: usize = start;
        while i < p
            invariant
                t == s@,
                n == t.len(),
                start <= i <= p <= n,
                p == point_index(t),
                w == whole_text(t),
                w == t.subrange(start as int, p as int),
                all_digits(t.subrange(start as int, i as int)),
                whole == digits_value(t.subrange(start as int, i as int)),
                0 <= whole <= MAX_WHOLE_UNITS,
            decreases p - i,
        {
            let c = s.get_char(i);
            if c < '0' || c > '9' {
                assert(w[i - start] == c);
                return None;
            }
            proof {
                lemma_digits_value_step(t, start as int, i as int);
                assert(t.subrange(start as int, i + 1) =~= t.subrange(start as int, i as int).push(c));
            }
            whole = whole * 10 + (c as u32 - '0' as u32) as i64;
            i = i + 1;
            if whole > MAX_WHOLE_UNITS {
                proof {
                    assert(w.subrange(0, i - start) =~= t.subrange(start as int, i as int));
                    if is_decimal_text(t) {
                        lemma_digits_value_prefix(w, i - start);
                        let f = fraction_text(t);
                        lemma_digits_value_nonneg(f);
                        assert(digits_value(f) * pow10((MAX_FRACTION_DIGITS - f.len()) as nat) >= 0)
                            by (nonlinear_arith)
                            requires
                                digits_value(f) >= 0,
                        ;
                    }
                }
                return None;
            }
        }
        assert(t.subrange(start as int, p as int) =~= w);
        // The digits after the point.
        let ghost f = fraction_text(t);
        let mut fraction: i64 = 0;
        let mut digits: usize = 0;
        if p < n {
            if n - p - 1 > MAX_FRACTION_DIGITS {
                return None;
            }
            let mut j: usize = p + 1;
            proof {
                lemma_pow10_mono(0, MAX_FRACTION_DIGITS as nat);
            }
            while j < n
                invariant
                    t == s@,
                n == t.len(),
                    p < j <= n,
                    n - p - 1 <= MAX_FRACTION_DIGITS,
                    f == fraction_text(t),
                    f == t.subrange(p + 1, n as int),
                    digits == j - p - 1,
                    all_digits(t.subrange(p + 1, j as int)),
                    fraction == digits_value(t.subrange(p + 1, j as int)),
                    0 <= fraction < pow10(digits as nat),
                    pow10(digits as nat) <= pow10(MAX_FRACTION_DIGITS as nat),
                decreases n - j,
            {
                let c = s.get_char(j);
                if c < '0' || c > '9' {
                    assert(f[j - p - 1] == c);
                    return None;
                }
                proof {
                    lemma_digits_value_step(t, p + 1, j as int);
                    assert(t.subrange(p + 1, j + 1) =~= t.subrange(p + 1, j as int).push(c));
                    lemma_pow10_mono((digits + 1) as nat, MAX_FRACTION_DIGITS as nat);
                    lemma_pow10_six();
                }
                fraction = fraction * 10 + (c as u32 - '0' as u32) as i64;
                digits = digits + 1;
                j = j + 1;
            }
            assert(t.subrange(p + 1, n as int) =~= f);
        }
        assert(digits == f.len());
        if p - start + digits == 0 {
            return None;
        }
        // Scale the fraction to millionths.
        let mut scaled: i64 = fraction;
        proof {
            lemma_pow10_mono(digits as nat, MAX_FRACTION_DIGITS as nat);
            assert(fraction * pow10(0) == fraction);
        }
        let mut k: usize = digits;
        while k < MAX_FRACTION_DIGITS
            invariant
                digits <= k <= MAX_FRACTION_DIGITS,
                scaled == fraction * pow10((k - digits) as nat),
                0 <= scaled < pow10(k as nat),
                pow10(k as nat) <= pow10(MAX_FRACTION_DIGITS as nat),
            decreases MAX_FRACTION_DIGITS - k,
        {
            proof {
                lemma_pow10_mono((k + 1) as nat, MAX_FRACTION_DIGITS as nat);
                lemma_pow10_six();
                assert(pow10((k + 1 - digits) as nat) == 10 * pow10((k - digits) as nat));
                assert(fraction * (10 * pow10((k - digits) as nat)) == (fraction * pow10(
                    (k - digits) as nat,
                )) * 10) by (nonlinear_arith);
            }
            scaled = scaled * 10;
            k = k + 1;
        }
        proof {
            lemma_pow10_six();
        }
        let magnitude = whole * QUANTITY_SCALE + scaled;
        if magnitude > MAX_QUANTITY_MICROS {
            return None;
        }
        if negative {
            Some(Quantity { micros: -magnitude })
        } else {
            Some(Quantity { micros: magnitude })
        }
    }


    /// Reads the decimal text `s` as `parse` does, and falls back to
    /// `default` where `s` is not such a text or lies out of range.
    pub fn parse_or(s: &str, default: Quantity) -> (r: Quantity)
        ensures
            r@ == text_value_or(s@, default@),
    {
        match Quantity::parse(s) {
            Some(q) => q,
            None => default,
        }
    }

    /// The quantity in millionths of its unit.
    pub fn micros(&self) -> (r: i64)
        ensures
            r == self@,
            -MAX_QUANTITY_MICROS <= r <= MAX_QUANTITY_MICROS,
    {
        proof {
            use_type_invariant(self);
        }
        self.micros
    }
}

} // verus!
