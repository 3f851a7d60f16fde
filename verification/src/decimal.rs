//! Decimal text of 64-bit signed integers, as session tokens carry their expiry.
//!
//! Reading follows the grammar that Rust's `str::parse::<i64>` accepts: an
//! optional `+` or `-`, then at least one ASCII digit, with the value in range.
//! Writing gives the shortest such text, as `format!("{}", n)` does.
use vstd::prelude::*;

verus! {

/// An ASCII decimal digit.
pub open spec fn is_digit(c: char) -> bool {
    '0' <= c && c <= '9'
}

/// The numeric value of a digit character.
pub open spec fn digit_value(c: char) -> int {
    (c as int) - ('0' as int)
}

/// The digit character of a value below ten.
pub open spec fn digit_char(d: int) -> char {
    (d + ('0' as int)) as char
}

/// Every character is a digit.
pub open spec fn all_digits(s: Seq<char>) -> bool {
    forall|i: int| 0 <= i < s.len() ==> is_digit(#[trigger] s[i])
}

/// The value of a string of digits, most significant first.
pub open spec fn digits_value(s: Seq<char>) -> int
    decreases s.len(),
{
    if s.len() == 0 {
        0
    } else {
        digits_value(s.drop_last()) * 10 + digit_value(s.last())
    }
}

/// The integer that `text` denotes as an `i64` in decimal, or `None` when the
/// text is not an optional sign followed by one or more digits, or when the
/// value lies outside the range of `i64`.
pub open spec fn i64_of_decimal(text: Seq<char>) -> Option<i64> {
    let signed = text.len() > 0 && (text[0] == '+' || text[0] == '-');
    let digits = if signed { text.drop_first() } else { text };
    let magnitude = digits_value(digits);
    let value = if signed && text[0] == '-' { -magnitude } else { magnitude };
    if digits.len() == 0 || !all_digits(digits) {
        None
    } else if value < i64::MIN || value > i64::MAX {
        None
    } else {
        Some(value as i64)
    }
}

/// The shortest digits of a natural number.
pub open spec fn natural_digits(n: nat) -> Seq<char>
    decreases n,
{
    if n < 10 {
        seq![digit_char(n as int)]
    } else {
        natural_digits((n / 10) as nat).push(digit_char((n % 10) as int))
    }
}

/// The decimal text of an integer: a `-` before the digits of its magnitude
/// when it is negative.
pub open spec fn decimal_text(n: int) -> Seq<char> {
    if n < 0 {
        seq!['-'] + natural_digits((-n) as nat)
    } else {
        natural_digits(n as nat)
    }
}

proof fn lemma_digit_char(d: int)
    requires
        0 <= d < 10,
    ensures
        is_digit(digit_char(d)),
        digit_value(digit_char(d)) == d,
{
}

proof fn lemma_digits_value_nonneg(s: Seq<char>)
    requires
        all_digits(s),
    ensures
        digits_value(s) >= 0,
    decreases s.len(),
{
    if s.len() > 0 {
        assert(all_digits(s.drop_last()));
        assert(is_digit(s[s.len() - 1]));
        lemma_digits_value_nonneg(s.drop_last());
    }
}

/// A string of digits is worth at least as much as any of its prefixes.
proof fn lemma_digits_value_prefix(s: Seq<char>, k: int)
    requires
        all_digits(s),
        0 <= k <= s.len(),
    ensures
        digits_value(s.take(k)) <= digits_value(s),
    decreases s.len(),
{
    if k < s.len() {
        let p = s.drop_last();
        assert(all_digits(p));
        assert(is_digit(s[s.len() - 1]));
        lemma_digits_value_prefix(p, k);
        assert(p.take(k) =~= s.take(k));
        lemma_digits_value_nonneg(p);
    } else {
        assert(s.take(k) =~= s);
    }
}

proof fn lemma_natural_digits(n: nat)
    ensures
        natural_digits(n).len() > 0,
        all_digits(natural_digits(n)),
        digits_value(natural_digits(n)) == n,
        is_digit(natural_digits(n)[0]),
    decreases n,
{
    if n < 10 {
        lemma_digit_char(n as int);
        assert(natural_digits(n).drop_last() =~= Seq::<char>::empty());
        assert(digits_value(Seq::<char>::empty()) == 0);
        assert(digits_value(natural_digits(n)) == digits_value(natural_digits(n).drop_last()) * 10
            + digit_value(natural_digits(n).last()));
    } else {
        let p = natural_digits((n / 10) as nat);
        lemma_natural_digits((n / 10) as nat);
        lemma_digit_char((n % 10) as int);
        assert(natural_digits(n).drop_last() =~= p);
        assert(natural_digits(n).last() == digit_char((n % 10) as int));
        assert(digits_value(natural_digits(n)) == digits_value(p) * 10 + (n % 10) as int);
        assert((n / 10) as int * 10 + (n % 10) as int == n);
        assert forall|i: int| 0 <= i < natural_digits(n).len() implies is_digit(#[trigger] natural_digits(n)[i]) by {
            if i < p.len() {
                assert(natural_digits(n)[i] == p[i]);
            }
        }
    }
}

/// Reading back the decimal text of an `i64` gives the same `i64`.
pub proof fn lemma_decimal_round_trip(n: i64)
    ensures
        i64_of_decimal(decimal_text(n as int)) == Some(n),
{
    let t = decimal_text(n as int);
    if n < 0 {
        let m = (-(n as int)) as nat;
        lemma_natural_digits(m);
        assert(t.drop_first() =~= natural_digits(m));
        assert(t[0] == '-');
    } else {
        lemma_natural_digits(n as nat);
        let d = natural_digits(n as nat);
        assert(is_digit(d[0]));
        assert(d[0] != '+' && d[0] != '-');
    }
}

/// Reads an `i64` written in decimal.
pub fn parse_i64(text: &str) -> (r: Option<i64>)
    ensures
        r == i64_of_decimal(text@),
{
    let n = text.unicode_len();
    if n == 0 {
        return None;
    }
    let first = text.get_char(0);
    let signed = first == '+' || first == '-';
    let negative = first == '-';
    let start: usize = if signed { 1 } else { 0 };
    let ghost digits = if signed { text@.drop_first() } else { text@ };
    assert(digits =~= text@.subrange(start as int, n as int));
    if start == n {
        return None;
    }
    let limit: u64 = 0x8000_0000_0000_0000;
    let mut magnitude: u64 = 0;
    let mut i: usize = start;
    while i < n
        invariant
            n == text@.len(),
            start <= i <= n,
            digits =~= text@.subrange(start as int, n as int),
            digits == (if text@.len() > 0 && (text@[0] == '+' || text@[0] == '-') {
                text@.drop_first()
            } else {
                text@
            }),
            negative == (text@.len() > 0 && text@[0] == '-'),
            all_digits(text@.subrange(start as int, i as int)),
            magnitude == digits_value(text@.subrange(start as int, i as int)),
            magnitude <= limit,
            limit == 0x8000_0000_0000_0000u64,
        decreases n - i,
    {
        let c = text.get_char(i);
        let ghost prefix = text@.subrange(start as int, i as int);
        let ghost next = text@.subrange(start as int, i + 1);
        assert(next.drop_last() =~= prefix);
        assert(next.last() == c);
        if !('0' <= c && c <= '9') {
            assert(digits[i - start] == c);
            assert(!is_digit(digits[i - start]));
            assert(!all_digits(digits));
            return None;
        }
        let d: u64 = (c as u32 - '0' as u32) as u64;
        assert(d == digit_value(c));
        if magnitude > (limit - d) / 10 {
            proof {
                assert(digits_value(next) == magnitude * 10 + d);
                assert(magnitude * 10 + d > limit);
                assert(digits_value(next) > limit);
                if all_digits(digits) {
                    assert(digits.take(next.len() as int) =~= next);
                    lemma_digits_value_prefix(digits, next.len() as int);
                }
            }
            return None;
        }
        magnitude = magnitude * 10 + d;
        assert forall|j: int| 0 <= j < next.len() implies is_digit(#[trigger] next[j]) by {
            if j < prefix.len() {
                assert(next[j] == prefix[j]);
            }
        }
        i = i + 1;
    }
    if negative {
        if magnitude == limit {
            Some(i64::MIN)
        } else {
            Some(-(magnitude as i64))
        }
    } else if magnitude <= i64::MAX as u64 {
        Some(magnitude as i64)
    } else {
        None
    }
}

fn digit_text(d: u64) -> (r: &'static str)
    requires
        d < 10,
    ensures
        r@ == seq![digit_char(d as int)],
{
    let digits = "0123456789";
    proof {
        reveal_strlit("0123456789");
    }
    let r = digits.substring_char(d as usize, d as usize + 1);
    assert(r@ =~= seq![digit_char(d as int)]);
    r
}

fn push_digits(m: u64, out: &mut String)
    ensures
        final(out)@ == old(out)@ + natural_digits(m as nat),
    decreases m,
{
    if m >= 10 {
        push_digits(m / 10, out);
    }
    out.append(digit_text(m % 10));
    proof {
        if m >= 10 {
            assert(old(out)@ + natural_digits((m / 10) as nat) + seq![digit_char((m % 10) as int)]
                =~= old(out)@ + natural_digits(m as nat));
        } else {
            assert(natural_digits(m as nat) == seq![digit_char(m as int)]);
        }
    }
}

/// Writes an `i64` in decimal.
pub fn format_i64(n: i64) -> (r: String)
    ensures
        r@ == decimal_text(n as int),
{
    let mut out = String::new();
    let magnitude: u64;
    if n < 0 {
        out.append("-");
        proof {
            reveal_strlit("-");
        }
        magnitude = if n == i64::MIN { 0x8000_0000_0000_0000u64 } else { (-n) as u64 };
    } else {
        magnitude = n as u64;
    }
    push_digits(magnitude, &mut out);
    proof {
        if n < 0 {
            assert(out@ =~= seq!['-'] + natural_digits((-(n as int)) as nat));
        } else {
            assert(out@ =~= natural_digits(n as nat));
        }
    }
    out
}

} // verus!
