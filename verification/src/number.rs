//! Decimal numerals: writing an unsigned number and reading one back.

use vstd::prelude::*;

verus! {

/// The character of the digit `d`.
pub open spec fn digit_char(d: int) -> char {
    if 0 <= d && d <= 9 {
        (('0' as u8) + d) as char
    } else {
        '0'
    }
}

/// The decimal numeral of `n`, without leading zeros.
pub open spec fn decimal_text(n: nat) -> Seq<char>
    decreases n,
{
    if n < 10 {
        seq![digit_char(n as int)]
    } else {
        decimal_text(n / 10).push(digit_char((n % 10) as int))
    }
}

/// The character of the digit `d`.
fn digit_of(d: u64) -> (c: char)
    requires
        d < 10,
    ensures
        c == digit_char(d as int),
{
    (('0' as u8) + (d as u8)) as char
}

/// The decimal numeral of `n`.
pub fn decimal(n: u64) -> (r: Vec<char>)
    ensures
        r@ == decimal_text(n as nat),
{
    let mut digits: Vec<char> = Vec::new();
    let mut m: u64 = n;
    while m >= 10
        invariant
            decimal_text(n as nat) == decimal_text(m as nat) + digits@,
        decreases m,
    {
        let ghost before = digits@;
        digits.insert(0, digit_of(m % 10));
        proof {
            assert(decimal_text(m as nat) == decimal_text((m / 10) as nat).push(
                digit_char((m % 10) as int),
            ));
            assert(decimal_text((m / 10) as nat).push(digit_char((m % 10) as int)) + before
                =~= decimal_text((m / 10) as nat) + digits@);
        }
        m = m / 10;
    }
    let ghost before = digits@;
    digits.insert(0, digit_of(m));
    proof {
        assert(decimal_text(m as nat) + before =~= digits@);
    }
    digits
}

/// Whether `c` is a decimal digit.
pub open spec fn is_digit(c: char) -> bool {
    '0' <= c && c <= '9'
}

/// The value of the digit `c`.
pub open spec fn digit_value(c: char) -> nat {
    if is_digit(c) {
        ((c as u8) - ('0' as u8)) as nat
    } else {
        0
    }
}

/// Whether `s` holds decimal digits only.
pub open spec fn all_digits(s: Seq<char>) -> bool {
    forall|i: int| 0 <= i < s.len() ==> is_digit(#[trigger] s[i])
}

/// The number that the first `upto` digits of `s` spell.
pub open spec fn digits_value(s: Seq<char>, upto: int) -> nat
    decreases upto,
{
    if upto <= 0 || upto > s.len() {
        0
    } else {
        digits_value(s, upto - 1) * 10 + digit_value(s[upto - 1])
    }
}

/// The digits of a numeral: the text itself, or what follows one leading
/// `+`.
pub open spec fn unsigned_part(s: Seq<char>) -> Seq<char> {
    if s.len() > 0 && s[0] == '+' {
        s.subrange(1, s.len() as int)
    } else {
        s
    }
}

/// The number that `s` spells when it is a decimal numeral, with or without
/// a leading `+`, of a number that a `u64` holds.
pub open spec fn number_of(s: Seq<char>) -> Option<u64> {
    let d = unsigned_part(s);
    if d.len() > 0 && all_digits(d) && digits_value(d, d.len() as int) <= u64::MAX {
        Some(digits_value(d, d.len() as int) as u64)
    } else {
        None
    }
}

/// More digits never spell a smaller number.
pub proof fn lemma_digits_value_grows(s: Seq<char>, a: int, b: int)
    requires
        0 <= a <= b <= s.len(),
    ensures
        digits_value(s, a) <= digits_value(s, b),
    decreases b - a,
{
    if a < b {
        lemma_digits_value_grows(s, a, b - 1);
        assert(digits_value(s, b) == digits_value(s, b - 1) * 10 + digit_value(s[b - 1]));
    }
}

/// Reads a decimal numeral, as `u64::from_str` does.
pub fn parse_u64(s: &Vec<char>) -> (r: Option<u64>)
    ensures
        r == number_of(s@),
{
    let start: usize = if s.len() > 0 && s[0] == '+' {
        1
    } else {
        0
    };
    let ghost d = unsigned_part(s@);
    if start == s.len() {
        return None;
    }
    let mut acc: u64 = 0;
    let mut i: usize = start;
    while i < s.len()
        invariant
            start <= i <= s.len(),
            start <= 1,
            d == unsigned_part(s@),
            d.len() == s.len() - start,
            forall|j: int| 0 <= j < d.len() ==> d[j] == s@[j + start],
            forall|j: int| 0 <= j < i - start ==> is_digit(#[trigger] d[j]),
            acc == digits_value(d, i - start),
        decreases s.len() - i,
    {
        let c = s[i];
        if !('0' <= c && c <= '9') {
            proof {
                assert(!is_digit(d[i - start]));
            }
            return None;
        }
        let v: u64 = ((c as u8) - ('0' as u8)) as u64;
        proof {
            assert(digits_value(d, i - start + 1) == digits_value(d, i - start) * 10
                + digit_value(d[i - start]));
        }
        if acc > (u64::MAX - v) / 10 {
            proof {
                assert(digits_value(d, i - start + 1) > u64::MAX);
                lemma_digits_value_grows(d, i - start + 1, d.len() as int);
            }
            return None;
        }
        acc = acc * 10 + v;
        i = i + 1;
    }
    Some(acc)
}

/// Reading the numeral of a number gives the number back.
pub proof fn lemma_decimal_round_trip(n: nat)
    ensures
        decimal_text(n).len() > 0,
        all_digits(decimal_text(n)),
        digits_value(decimal_text(n), decimal_text(n).len() as int) == n,
        n <= u64::MAX ==> number_of(decimal_text(n)) == Some(n as u64),
    decreases n,
{
    let t = decimal_text(n);
    if n >= 10 {
        let h = decimal_text(n / 10);
        lemma_decimal_round_trip(n / 10);
        assert(t == h.push(digit_char((n % 10) as int)));
        assert forall|i: int| 0 <= i < t.len() implies is_digit(#[trigger] t[i]) by {
            if i < h.len() {
                assert(t[i] == h[i]);
            }
        }
        lemma_digits_prefix(t, h, h.len() as int);
        assert(digits_value(t, t.len() as int) == digits_value(t, t.len() - 1) * 10 + digit_value(
            t[t.len() - 1],
        ));
    } else {
        assert(digits_value(t, 1) == digits_value(t, 0) * 10 + digit_value(t[0]));
    }
    assert(t[0] != '+');
    assert(unsigned_part(t) == t);
}

/// The value of a run of digits depends on those digits only.
pub proof fn lemma_digits_prefix(s: Seq<char>, t: Seq<char>, upto: int)
    requires
        0 <= upto <= s.len(),
        upto <= t.len(),
        forall|i: int| 0 <= i < upto ==> s[i] == t[i],
    ensures
        digits_value(s, upto) == digits_value(t, upto),
    decreases upto,
{
    if upto > 0 {
        lemma_digits_prefix(s, t, upto - 1);
    }
}

/// The decimal numeral of a signed number: a minus sign before the
/// numeral of its size when it is negative.
pub open spec fn signed_decimal_text(n: int) -> Seq<char> {
    if n < 0 {
        seq!['-'] + decimal_text((-n) as nat)
    } else {
        decimal_text(n as nat)
    }
}

/// The decimal numeral of a signed number.
pub fn signed_decimal(n: i64) -> (r: Vec<char>)
    ensures
        r@ == signed_decimal_text(n as int),
{
    if n < 0 {
        let m: u64 = (-(n as i128)) as u64;
        let mut out: Vec<char> = Vec::new();
        out.push('-');
        let d = decimal(m);
        let mut i: usize = 0;
        while i < d.len()
            invariant
                i <= d.len(),
                out@ == seq!['-'] + d@.subrange(0, i as int),
            decreases d.len() - i,
        {
            out.push(d[i]);
            i = i + 1;
            proof {
                assert(out@ =~= seq!['-'] + d@.subrange(0, i as int));
            }
        }
        proof {
            assert(d@.subrange(0, i as int) =~= d@);
        }
        out
    } else {
        decimal(n as u64)
    }
}

} // verus!
