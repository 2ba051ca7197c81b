//! Reading a number written in decimal notation: an optional sign, digits,
//! and an optional point with more digits (`2`, `-0.5`, `60.`, `.75`), as an
//! exact value `mantissa / 10^k`.
use vstd::prelude::*;
use crate::rational::Ratio;

verus! {

/// The most digits a number may have, so that its mantissa fits an `i64`.
pub const MAX_DIGITS: usize = 18;

/// The most digits after the point, so that a percentage of the value still
/// has a denominator that fits an `i64`.
pub const MAX_FRACTION_DIGITS: usize = 15;

pub open spec fn is_digit(c: u8) -> bool {
    48 <= c <= 57
}

pub open spec fn all_digits(s: Seq<u8>) -> bool {
    forall|i: int| 0 <= i < s.len() ==> is_digit(#[trigger] s[i])
}

/// The value of a string of decimal digits.
pub open spec fn digits_value(s: Seq<u8>) -> int
    decreases s.len(),
{
    if s.len() == 0 {
        0
    } else {
        digits_value(s.drop_last()) * 10 + (s.last() - 48)
    }
}

pub open spec fn pow10(k: nat) -> int
    decreases k,
{
    if k == 0 {
        1
    } else {
        10 * pow10((k - 1) as nat)
    }
}

pub open spec fn has_sign(s: Seq<u8>) -> bool {
    s.len() > 0 && (s[0] == 43 || s[0] == 45)
}

pub open spec fn is_negative(s: Seq<u8>) -> bool {
    s.len() > 0 && s[0] == 45
}

/// The text after the sign.
pub open spec fn unsigned_part(s: Seq<u8>) -> Seq<u8> {
    if has_sign(s) {
        s.subrange(1, s.len() as int)
    } else {
        s
    }
}

/// The index of the first point, or the length where there is none.
pub open spec fn point_index(u: Seq<u8>) -> int
    decreases u.len(),
{
    if u.len() == 0 || u[0] == 46 {
        0
    } else {
        1 + point_index(u.subrange(1, u.len() as int))
    }
}

/// The digits before the point.
pub open spec fn whole_digits(s: Seq<u8>) -> Seq<u8> {
    unsigned_part(s).subrange(0, point_index(unsigned_part(s)))
}

/// The digits after the point; empty where there is no point.
pub open spec fn fraction_digits(s: Seq<u8>) -> Seq<u8> {
    let u = unsigned_part(s);
    if point_index(u) < u.len() {
        u.subrange(point_index(u) + 1, u.len() as int)
    } else {
        Seq::empty()
    }
}

/// The text is a decimal number: digits on both sides of at most one point,
/// and at least one digit in all.
pub open spec fn is_decimal(s: Seq<u8>) -> bool {
    &&& all_digits(whole_digits(s))
    &&& all_digits(fraction_digits(s))
    &&& whole_digits(s).len() + fraction_digits(s).len() >= 1
}

/// The number has few enough digits to be held exactly.
pub open spec fn within_precision(s: Seq<u8>) -> bool {
    &&& whole_digits(s).len() + fraction_digits(s).len() <= MAX_DIGITS
    &&& fraction_digits(s).len() <= MAX_FRACTION_DIGITS
}

/// The numerator of the value: all digits read as one integer, with the sign.
pub open spec fn decimal_numerator(s: Seq<u8>) -> int {
    let v = digits_value(whole_digits(s) + fraction_digits(s));
    if is_negative(s) {
        -v
    } else {
        v
    }
}

/// The denominator of the value: ten to the number of fraction digits.
pub open spec fn decimal_denominator(s: Seq<u8>) -> int {
    pow10(fraction_digits(s).len())
}

/// The exact value of `s`, where `s` is a decimal number within precision.
pub open spec fn decimal_of(s: Seq<u8>) -> Option<Ratio> {
    if is_decimal(s) && within_precision(s) {
        Some(Ratio { num: decimal_numerator(s) as i64, den: decimal_denominator(s) as i64 })
    } else {
        None
    }
}

proof fn lemma_pow10_monotone(a: nat, b: nat)
    requires
        a <= b,
    ensures
        1 <= pow10(a) <= pow10(b),
    decreases b - a,
{
    if a < b {
        lemma_pow10_monotone(a, (b - 1) as nat);
    } else {
        lemma_pow10_positive(a);
    }
}

proof fn lemma_pow10_positive(a: nat)
    ensures
        1 <= pow10(a),
    decreases a,
{
    if a > 0 {
        lemma_pow10_positive((a - 1) as nat);
    }
}

proof fn lemma_pow10_limit()
    ensures
        pow10(MAX_DIGITS as nat) == 1_000_000_000_000_000_000,
        pow10(MAX_FRACTION_DIGITS as nat) == 1_000_000_000_000_000,
{
    reveal_with_fuel(pow10, 19);
}

/// Digits appended one at a time: the value of a prefix one longer.
proof fn lemma_digits_step(s: Seq<u8>, c: int)
    requires
        0 <= c < s.len(),
    ensures
        digits_value(s.subrange(0, c + 1)) == digits_value(s.subrange(0, c)) * 10 + (s[c] - 48),
{
    assert(s.subrange(0, c + 1).drop_last() =~= s.subrange(0, c));
}

/// Reads `text` as a decimal number. Returns its exact value, or nothing
/// where the text is not a decimal number or has more digits than can be
/// held exactly.
pub fn parse_decimal(text: &[u8]) -> (r: Option<Ratio>)
    ensures
        r == decimal_of(text@),
        r is Some <==> is_decimal(text@) && within_precision(text@),
        r matches Some(v) ==> v.num == decimal_numerator(text@) && v.den == decimal_denominator(
            text@,
        ),
        r matches Some(v) ==> 0 < v.den <= 1_000_000_000_000_000,
{
    let len = text.len();
    let signed = len > 0 && (text[0] == 43 || text[0] == 45);
    let negative = len > 0 && text[0] == 45;
    let start: usize = if signed {
        1
    } else {
        0
    };
    let ghost s = text@;
    let ghost u = unsigned_part(s);
    assert(u =~= s.subrange(start as int, len as int));

    let mut k: usize = start;
    assert(u.subrange(0, u.len() as int) =~= u);
    while k < len && text[k] != 46
        invariant
            start <= k <= len,
            len == s.len(),
            s == text@,
            u == s.subrange(start as int, len as int),
            point_index(u) == (k - start) + point_index(u.subrange(k - start, u.len() as int)),
        decreases len - k,
    {
        proof {
            let t = u.subrange(k - start, u.len() as int);
            assert(t.subrange(1, t.len() as int) =~= u.subrange(k - start + 1, u.len() as int));
        }
        k = k + 1;
    }
    let whole_len: usize = k - start;
    let frac_start: usize = if k < len {
        k + 1
    } else {
        len
    };
    let frac_len: usize = len - frac_start;
    let ghost w = s.subrange(start as int, k as int);
    let ghost f = s.subrange(frac_start as int, len as int);
    proof {
        assert(point_index(u) == whole_len);
        assert(whole_digits(s) =~= w);
        assert(fraction_digits(s) =~= f);
    }
    if whole_len + frac_len == 0 || whole_len + frac_len > MAX_DIGITS || frac_len
        > MAX_FRACTION_DIGITS {
        return None;
    }
    proof {
        lemma_pow10_limit();
    }

    let mut mantissa: i64 = 0;
    let mut i: usize = start;
    while i < k
        invariant
            start <= i <= k <= len,
            s == text@,
            len == s.len(),
            w == s.subrange(start as int, k as int),
            whole_digits(s) == w,
            whole_len == k - start,
            whole_len + frac_len <= MAX_DIGITS,
            pow10(MAX_DIGITS as nat) == 1_000_000_000_000_000_000,
            mantissa == digits_value(w.subrange(0, i - start)),
            0 <= mantissa < pow10((i - start) as nat),
            all_digits(w.subrange(0, i - start)),
        decreases k - i,
    {
        let c = text[i];
        if c < 48 || c > 57 {
            proof {
                assert(!is_digit(w[i - start]));
            }
            return None;
        }
        proof {
            lemma_digits_step(w, i - start);
            lemma_pow10_monotone((i - start + 1) as nat, MAX_DIGITS as nat);
            assert(all_digits(w.subrange(0, i - start + 1))) by {
                assert forall|j: int| 0 <= j < i - start + 1 implies is_digit(
                    #[trigger] w.subrange(0, i - start + 1)[j],
                ) by {
                    if j < i - start {
                        assert(w.subrange(0, i - start + 1)[j] == w.subrange(0, i - start)[j]);
                    }
                }
            }
        }
        mantissa = mantissa * 10 + (c - 48) as i64;
        i = i + 1;
    }
    assert(w.subrange(0, whole_len as int) =~= w);

    let ghost d = w + f;
    let mut den: i64 = 1;
    let mut j: usize = frac_start;
    assert(d.subrange(0, whole_len as int) =~= w);
    while j < len
        invariant
            frac_start <= j <= len,
            start <= k <= len,
            fraction_digits(s) == f,
            s == text@,
            len == s.len(),
            w == s.subrange(start as int, k as int),
            f == s.subrange(frac_start as int, len as int),
            d == w + f,
            all_digits(w),
            whole_len == w.len(),
            frac_len == len - frac_start,
            whole_len + frac_len <= MAX_DIGITS,
            frac_len <= MAX_FRACTION_DIGITS,
            pow10(MAX_DIGITS as nat) == 1_000_000_000_000_000_000,
            pow10(MAX_FRACTION_DIGITS as nat) == 1_000_000_000_000_000,
            mantissa == digits_value(d.subrange(0, whole_len + (j - frac_start))),
            0 <= mantissa < pow10((whole_len + (j - frac_start)) as nat),
            den == pow10((j - frac_start) as nat),
            all_digits(f.subrange(0, j - frac_start)),
        decreases len - j,
    {
        let c = text[j];
        let ghost t = (j - frac_start) as int;
        if c < 48 || c > 57 {
            proof {
                assert(!is_digit(f[t]));
            }
            return None;
        }
        proof {
            let n = whole_len + t;
            assert(d[n] == c);
            lemma_digits_step(d, n);
            lemma_pow10_monotone((n + 1) as nat, MAX_DIGITS as nat);
            lemma_pow10_monotone((t + 1) as nat, MAX_FRACTION_DIGITS as nat);
            assert(all_digits(f.subrange(0, t + 1))) by {
                assert forall|x: int| 0 <= x < t + 1 implies is_digit(
                    #[trigger] f.subrange(0, t + 1)[x],
                ) by {
                    if x < t {
                        assert(f.subrange(0, t + 1)[x] == f.subrange(0, t)[x]);
                    }
                }
            }
        }
        mantissa = mantissa * 10 + (c - 48) as i64;
        den = den * 10;
        j = j + 1;
    }
    assert(f.subrange(0, frac_len as int) =~= f);
    assert(d.subrange(0, (whole_len + frac_len) as int) =~= d);
    proof {
        lemma_pow10_monotone(frac_len as nat, MAX_FRACTION_DIGITS as nat);
    }
    let num = if negative {
        -mantissa
    } else {
        mantissa
    };
    Some(Ratio { num, den })
}

} // verus!
