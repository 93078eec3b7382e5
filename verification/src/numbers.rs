//! Whole numbers: reading them from text and scaling them without overflow.
use vstd::prelude::*;

use crate::text::{
    ascii_lower_seq, chars_eq, find_char, first_index_of, lemma_first_index_of, slice,
    spec_ascii_lower,
};
use crate::digits::{
    all_digits, digit_value, digits_value, is_digit, lemma_digits_value_concat,
    lemma_pow10_positive, pow10,
};

verus! {

/// An integer written `[+|-]DIGITS`, as `i64::from_str` reads it; `None` when malformed or out of
/// the range of `i64`.
pub open spec fn int_text(s: Seq<char>) -> Option<int> {
    let neg = s.len() > 0 && s[0] == '-';
    let body = if s.len() > 0 && (s[0] == '-' || s[0] == '+') {
        s.drop_first()
    } else {
        s
    };
    let v = if neg {
        -(digits_value(body) as int)
    } else {
        digits_value(body) as int
    };
    if body.len() > 0 && all_digits(body) && i64::MIN <= v <= i64::MAX {
        Some(v)
    } else {
        None
    }
}

/// `x` held to the range of `i64`.
pub open spec fn clamp_i64(x: int) -> int {
    if x > i64::MAX {
        i64::MAX as int
    } else if x < i64::MIN {
        i64::MIN as int
    } else {
        x
    }
}

proof fn lemma_prefix_value_le(s: Seq<char>, i: int)
    requires
        0 <= i <= s.len(),
    ensures
        digits_value(s.take(i)) <= digits_value(s),
{
    lemma_digits_value_concat(s.take(i), s.skip(i));
    assert(s.take(i) + s.skip(i) =~= s);
    lemma_pow10_positive(s.skip(i).len());
    let a = digits_value(s.take(i));
    let p = pow10(s.skip(i).len());
    assert(a * p >= a) by (nonlinear_arith)
        requires
            p >= 1,
    ;
}

/// Reads `[+|-]DIGITS` into an `i64`.
pub fn parse_i64(s: &Vec<char>) -> (r: Option<i64>)
    ensures
        match r {
            Some(n) => int_text(s@) == Some(n as int),
            None => int_text(s@) is None,
        },
{
    let n = s.len();
    let neg = n > 0 && s[0] == '-';
    let start: usize = if n > 0 && (s[0] == '-' || s[0] == '+') {
        1
    } else {
        0
    };
    let ghost body = s@.skip(start as int);
    proof {
        if start == 1 {
            assert(body =~= s@.drop_first());
        } else {
            assert(body =~= s@);
        }
    }
    if start >= n {
        return None;
    }
    let mut acc: u128 = 0;
    let mut i: usize = start;
    while i < n
        invariant
            start <= i <= n,
            n == s@.len(),
            start == (if n > 0 && (s@[0] == '-' || s@[0] == '+') {
                1usize
            } else {
                0usize
            }),
            body == (if n > 0 && (s@[0] == '-' || s@[0] == '+') {
                s@.drop_first()
            } else {
                s@
            }),
            body == s@.skip(start as int),
            acc == digits_value(body.take(i - start)),
            acc <= 0x8000_0000_0000_0000,
            forall|q: int| start <= q < i ==> is_digit(s@[q]),
        decreases n - i,
    {
        let c = s[i];
        if !('0' <= c && c <= '9') {
            proof {
                assert(body[i - start] == c);
                assert(!is_digit(body[i - start]));
                assert(!all_digits(body));
            }
            return None;
        }
        let d: u128 = ((c as u32) - 48) as u128;
        proof {
            let t = body.take(i - start + 1);
            assert(t.drop_last() =~= body.take(i - start));
            assert(t.last() == c);
            assert(digit_value(c) == d);
        }
        acc = acc * 10 + d;
        i = i + 1;
        if acc > 0x8000_0000_0000_0000 {
            proof {
                lemma_prefix_value_le(body, i - start);
            }
            return None;
        }
    }
    proof {
        assert(body.take(n - start) =~= body);
        assert forall|q: int| 0 <= q < body.len() implies is_digit(#[trigger] body[q]) by {
            assert(body[q] == s@[q + start]);
        }
    }
    if neg {
        if acc == 0x8000_0000_0000_0000 {
            Some(-0x8000_0000_0000_0000)
        } else {
            Some(-(acc as i64))
        }
    } else {
        if acc > 0x7fff_ffff_ffff_ffff {
            None
        } else {
            Some(acc as i64)
        }
    }
}

/// `kib * 1024`, saturating at the bounds of `i64` as `i64::saturating_mul` does.
pub fn kib_to_bytes(kib: i64) -> (r: i64)
    ensures
        r == clamp_i64(kib * 1024),
{
    if kib > 9_007_199_254_740_991 {
        i64::MAX
    } else if kib < -9_007_199_254_740_992 {
        i64::MIN
    } else {
        kib * 1024
    }
}

/// The nanoseconds in `ms` milliseconds when they fit in an `i64`, as `TimeDelta::num_nanoseconds`
/// gives them for a span made by `TimeDelta::try_milliseconds`.
pub open spec fn millis_as_nanos(ms: int) -> Option<int> {
    if i64::MIN <= ms * 1_000_000 <= i64::MAX {
        Some(ms * 1_000_000)
    } else {
        None
    }
}

/// The nanoseconds in `ms` milliseconds, when they fit in an `i64`.
pub fn millis_to_nanos(ms: i64) -> (r: Option<i64>)
    ensures
        match r {
            Some(ns) => millis_as_nanos(ms as int) == Some(ns as int),
            None => millis_as_nanos(ms as int) is None,
        },
{
    if -9_223_372_036_854 <= ms && ms <= 9_223_372_036_854 {
        Some(ms * 1_000_000)
    } else {
        None
    }
}



/// `DIGITS`, `DIGITS.DIGITS?` or `DIGITS?.DIGITS`.
pub open spec fn mantissa_text(m: Seq<char>) -> bool {
    match first_index_of(m, '.') {
        None => m.len() > 0 && all_digits(m),
        Some(i) => all_digits(m.take(i)) && all_digits(m.skip(i + 1)) && m.len() > 1,
    }
}

/// `[+|-]DIGITS`.
pub open spec fn exponent_text(x: Seq<char>) -> bool {
    let d = if x.len() > 0 && (x[0] == '+' || x[0] == '-') {
        x.drop_first()
    } else {
        x
    };
    d.len() > 0 && all_digits(d)
}

/// A number with an optional exponent, lower-cased: `MANTISSA[e EXPONENT]`.
pub open spec fn number_text(t: Seq<char>) -> bool {
    match first_index_of(t, 'e') {
        None => mantissa_text(t),
        Some(i) => mantissa_text(t.take(i)) && exponent_text(t.skip(i + 1)),
    }
}

/// Text that `f64::from_str` reads as a float: an optional sign, then `inf`, `infinity`, `nan`
/// or a decimal number with an optional exponent, where the letters may be of either case.
pub open spec fn float_text(s: Seq<char>) -> bool {
    let body = if s.len() > 0 && (s[0] == '+' || s[0] == '-') {
        s.drop_first()
    } else {
        s
    };
    let low = ascii_lower_seq(body);
    low == "inf"@ || low == "infinity"@ || low == "nan"@ || number_text(low)
}

fn ascii_lower(c: char) -> (r: char)
    ensures
        r == spec_ascii_lower(c),
{
    if 'A' <= c && c <= 'Z' {
        let b: u8 = ((c as u32) + 32) as u8;
        b as char
    } else {
        c
    }
}

fn digits_only(v: &Vec<char>, lo: usize, hi: usize) -> (b: bool)
    requires
        lo <= hi <= v@.len(),
    ensures
        b == all_digits(v@.subrange(lo as int, hi as int)),
{
    let mut i: usize = lo;
    while i < hi
        invariant
            lo <= i <= hi <= v@.len(),
            forall|q: int| lo <= q < i ==> is_digit(v@[q]),
        decreases hi - i,
    {
        if !('0' <= v[i] && v[i] <= '9') {
            proof {
                assert(v@.subrange(lo as int, hi as int)[i - lo] == v@[i as int]);
            }
            return false;
        }
        i = i + 1;
    }
    proof {
        assert forall|q: int| 0 <= q < hi - lo implies is_digit(
            #[trigger] v@.subrange(lo as int, hi as int)[q],
        ) by {
            assert(v@.subrange(lo as int, hi as int)[q] == v@[lo + q]);
        }
    }
    true
}

fn mantissa_ok(m: &Vec<char>) -> (b: bool)
    ensures
        b == mantissa_text(m@),
{
    let n = m.len();
    match find_char(m, '.') {
        None => {
            proof {
                assert(m@.subrange(0, n as int) =~= m@);
            }
            n > 0 && digits_only(m, 0, n)
        },
        Some(i) => {
            proof {
                lemma_first_index_of(m@, '.');
                assert(m@.subrange(0, i as int) =~= m@.take(i as int));
                assert(m@.subrange(i + 1, n as int) =~= m@.skip(i + 1));
            }
            digits_only(m, 0, i) && digits_only(m, i + 1, n) && n > 1
        },
    }
}

fn exponent_ok(x: &Vec<char>) -> (b: bool)
    ensures
        b == exponent_text(x@),
{
    let n = x.len();
    let start: usize = if n > 0 && (x[0] == '+' || x[0] == '-') {
        1
    } else {
        0
    };
    proof {
        if start == 1 {
            assert(x@.subrange(1, n as int) =~= x@.drop_first());
        } else {
            assert(x@.subrange(0, n as int) =~= x@);
        }
    }
    start < n && digits_only(x, start, n)
}

/// Whether `f64::from_str` reads `s` as a float.
pub fn is_float_text(s: &Vec<char>) -> (b: bool)
    ensures
        b == float_text(s@),
{
    let n = s.len();
    let start: usize = if n > 0 && (s[0] == '+' || s[0] == '-') {
        1
    } else {
        0
    };
    let mut low: Vec<char> = Vec::new();
    let mut i: usize = start;
    while i < n
        invariant
            start <= i <= n,
            n == s@.len(),
            low@ == ascii_lower_seq(s@.subrange(start as int, i as int)),
        decreases n - i,
    {
        low.push(ascii_lower(s[i]));
        i = i + 1;
        assert(low@ =~= ascii_lower_seq(s@.subrange(start as int, i as int)));
    }
    proof {
        if start == 1 {
            assert(s@.subrange(1, n as int) =~= s@.drop_first());
        } else {
            assert(s@.subrange(0, n as int) =~= s@);
        }
    }
    if chars_eq(&low, "inf") || chars_eq(&low, "infinity") || chars_eq(&low, "nan") {
        return true;
    }
    let m = low.len();
    match find_char(&low, 'e') {
        None => mantissa_ok(&low),
        Some(e) => {
            proof {
                lemma_first_index_of(low@, 'e');
            }
            let mant = slice(&low, 0, e);
            let exp = slice(&low, e + 1, m);
            proof {
                assert(mant@ =~= low@.take(e as int));
                assert(exp@ =~= low@.skip(e + 1));
            }
            mantissa_ok(&mant) && exponent_ok(&exp)
        },
    }
}

/// An integer's text is decimal digits with an optional sign: the digits alone or after `+`
/// read as their value, after `-` as its negation, as long as that fits in an `i64`; an empty
/// text, a bare sign, and a text with any other character after the sign read as nothing.
pub proof fn law_int_text(d: Seq<char>, s: Seq<char>)
    ensures
        d.len() > 0 && all_digits(d) && digits_value(d) <= i64::MAX ==> int_text(d) == Some(
            digits_value(d) as int,
        ) && int_text(seq!['+'] + d) == Some(digits_value(d) as int),
        d.len() > 0 && all_digits(d) && digits_value(d) > i64::MAX ==> int_text(d) is None
            && int_text(seq!['+'] + d) is None,
        d.len() > 0 && all_digits(d) && digits_value(d) <= -(i64::MIN as int) ==> int_text(
            seq!['-'] + d,
        ) == Some(-(digits_value(d) as int)),
        d.len() > 0 && all_digits(d) && digits_value(d) > -(i64::MIN as int) ==> int_text(
            seq!['-'] + d,
        ) is None,
        int_text(Seq::empty()) is None,
        int_text(seq!['+']) is None,
        int_text(seq!['-']) is None,
        (exists|j: int| 1 <= j < s.len() && !is_digit(#[trigger] s[j])) ==> int_text(s) is None,
        (s.len() > 0 && !is_digit(s[0]) && s[0] != '+' && s[0] != '-') ==> int_text(s) is None,
{
    assert((seq!['+'] + d).drop_first() =~= d);
    assert((seq!['-'] + d).drop_first() =~= d);
    if d.len() > 0 && all_digits(d) {
        assert(!is_digit('+') && !is_digit('-'));
    }
    if exists|j: int| 1 <= j < s.len() && !is_digit(#[trigger] s[j]) {
        let j = choose|j: int| 1 <= j < s.len() && !is_digit(#[trigger] s[j]);
        if s.len() > 0 && (s[0] == '-' || s[0] == '+') {
            assert(s.drop_first()[j - 1] == s[j]);
        }
    }
}

/// Whether a text reads as a float does not depend on the case of its letters nor on a sign in
/// front of it; `inf`, `infinity`, `nan` and a run of digits read as floats.
pub proof fn law_float_text(t: Seq<char>, d: Seq<char>)
    ensures
        float_text(t) == float_text(ascii_lower_seq(t)),
        t.len() > 0 && t[0] != '+' && t[0] != '-' ==> float_text(seq!['+'] + t) == float_text(t)
            && float_text(seq!['-'] + t) == float_text(t),
        float_text("inf"@) && float_text("infinity"@) && float_text("nan"@),
        d.len() > 0 && all_digits(d) ==> float_text(d),
{
    let lt = ascii_lower_seq(t);
    let body = if t.len() > 0 && (t[0] == '+' || t[0] == '-') {
        t.drop_first()
    } else {
        t
    };
    let lbody = if lt.len() > 0 && (lt[0] == '+' || lt[0] == '-') {
        lt.drop_first()
    } else {
        lt
    };
    if t.len() > 0 {
        assert(lt[0] == spec_ascii_lower(t[0]));
    }
    assert(lbody =~= ascii_lower_seq(body));
    assert(ascii_lower_seq(lbody) =~= ascii_lower_seq(body));
    assert((seq!['+'] + t).drop_first() =~= t);
    assert((seq!['-'] + t).drop_first() =~= t);
    reveal_strlit("inf");
    reveal_strlit("infinity");
    reveal_strlit("nan");
    assert(ascii_lower_seq("inf"@) =~= "inf"@);
    assert(ascii_lower_seq("infinity"@) =~= "infinity"@);
    assert(ascii_lower_seq("nan"@) =~= "nan"@);
    if d.len() > 0 && all_digits(d) {
        assert(ascii_lower_seq(d) =~= d);
        lemma_first_index_of(d, 'e');
        lemma_first_index_of(d, '.');
        assert(d[0] != 'e' && d[0] != '.');
    }
}

} // verus!
