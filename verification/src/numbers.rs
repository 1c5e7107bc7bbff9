//! Decimal rendering and parsing of integers, and thousands separators.

use vstd::prelude::*;
use crate::text::{to_vec, extend_chars, str_chars};

verus! {

/// The ASCII character of a decimal digit.
pub open spec fn digit_char(d: int) -> char {
    (d + 48) as char
}

/// Whether `c` is an ASCII decimal digit.
pub open spec fn is_ascii_digit(c: char) -> bool {
    '0' <= c && c <= '9'
}

/// The decimal digits of a natural number, most significant first, without
/// leading zeros ("0" for zero).
pub open spec fn nat_digits(n: nat) -> Seq<char>
    decreases n,
{
    if n < 10 {
        seq![digit_char(n as int)]
    } else {
        nat_digits(n / 10).push(digit_char((n % 10) as int))
    }
}

/// How `Display` renders an integer: an optional minus sign and the digits.
pub open spec fn decimal(n: int) -> Seq<char> {
    if n < 0 {
        seq!['-'] + nat_digits((-n) as nat)
    } else {
        nat_digits(n as nat)
    }
}

/// The value of a sequence of decimal digits.
pub open spec fn digits_value(s: Seq<char>) -> int
    decreases s.len(),
{
    if s.len() == 0 {
        0
    } else {
        digits_value(s.drop_last()) * 10 + (s.last() as int - 48)
    }
}

/// Every character is an ASCII decimal digit.
pub open spec fn all_digits(s: Seq<char>) -> bool {
    forall|i: int| 0 <= i < s.len() ==> is_ascii_digit(#[trigger] s[i])
}

/// What `str::parse::<i32>` accepts: an optional `+` or `-` sign followed by
/// one or more ASCII digits whose value fits in `i32`.
pub open spec fn parse_i32_spec(s: Seq<char>) -> Option<i32> {
    let neg = s.len() > 0 && s[0] == '-';
    let body = if s.len() > 0 && (s[0] == '-' || s[0] == '+') {
        s.drop_first()
    } else {
        s
    };
    let v = if neg {
        -digits_value(body)
    } else {
        digits_value(body)
    };
    if body.len() == 0 || !all_digits(body) || v < i32::MIN || v > i32::MAX {
        None
    } else {
        Some(v as i32)
    }
}

/// Groups a digit string in threes from the right with commas.
pub open spec fn group_thousands(ds: Seq<char>) -> Seq<char>
    decreases ds.len(),
{
    if ds.len() <= 3 {
        ds
    } else {
        group_thousands(ds.take(ds.len() - 3)) + seq![','] + ds.skip(ds.len() - 3)
    }
}

/// A natural number in decimal with a comma every three digits from the right.
pub open spec fn with_commas(n: nat) -> Seq<char> {
    group_thousands(nat_digits(n))
}

/// Not a comma.
pub open spec fn not_comma(c: char) -> bool {
    c != ','
}

/// Filtering out commas leaves a text without commas as it is.
proof fn lemma_no_commas_filtered(s: Seq<char>)
    requires
        !s.contains(','),
    ensures
        s.filter(|c: char| not_comma(c)) == s,
    decreases s.len(),
{
    reveal(Seq::filter);
    if s.len() > 0 {
        let t = s.drop_last();
        assert(!t.contains(',')) by {
            if t.contains(',') {
                let i = choose|i: int| 0 <= i < t.len() && t[i] == ',';
                assert(s[i] == ',');
            }
        }
        lemma_no_commas_filtered(t);
        assert(s[s.len() - 1] != ',');
        assert(t.push(s.last()) =~= s);
    }
}

/// Grouping digits only inserts commas: taking the commas out again gives
/// the digits back.
pub proof fn lemma_group_thousands_keeps_digits(ds: Seq<char>)
    requires
        !ds.contains(','),
    ensures
        group_thousands(ds).filter(|c: char| not_comma(c)) == ds,
    decreases ds.len(),
{
    let pred = |c: char| not_comma(c);
    if ds.len() <= 3 {
        lemma_no_commas_filtered(ds);
    } else {
        let head = ds.take(ds.len() - 3);
        let tail = ds.skip(ds.len() - 3);
        assert(!head.contains(',')) by {
            if head.contains(',') {
                let i = choose|i: int| 0 <= i < head.len() && head[i] == ',';
                assert(ds[i] == ',');
            }
        }
        assert(!tail.contains(',')) by {
            if tail.contains(',') {
                let i = choose|i: int| 0 <= i < tail.len() && tail[i] == ',';
                assert(ds[i + ds.len() - 3] == ',');
            }
        }
        lemma_group_thousands_keeps_digits(head);
        lemma_no_commas_filtered(tail);
        let comma = seq![','];
        Seq::filter_distributes_over_add(group_thousands(head) + comma, tail, pred);
        Seq::filter_distributes_over_add(group_thousands(head), comma, pred);
        reveal_with_fuel(Seq::filter, 2);
        assert(comma.drop_last() =~= Seq::<char>::empty());
        assert(comma.filter(pred) =~= Seq::<char>::empty());
        assert(head + tail =~= ds);
    }
}

/// A digit's character encodes the digit.
pub proof fn lemma_digit_char(d: int)
    requires
        0 <= d < 10,
    ensures
        digit_char(d) as int == d + 48,
        is_ascii_digit(digit_char(d)),
{
}

/// The digits of a number are digits.
pub proof fn lemma_nat_digits_are_digits(n: nat)
    ensures
        all_digits(nat_digits(n)),
        nat_digits(n).len() >= 1,
        digits_value(nat_digits(n)) == n,
    decreases n,
{
    lemma_digit_char((n % 10) as int);
    if n < 10 {
        let s = nat_digits(n);
        assert(s.drop_last() =~= Seq::<char>::empty());
        assert(s.last() == digit_char(n as int));
        assert(digits_value(s) == digits_value(s.drop_last()) * 10 + (s.last() as int - 48));
    } else {
        lemma_nat_digits_are_digits(n / 10);
        let s = nat_digits(n);
        assert(s.drop_last() == nat_digits(n / 10));
        assert(s.last() == digit_char((n % 10) as int));
        assert(n == (n / 10) * 10 + n % 10);
        assert(digits_value(s) == digits_value(s.drop_last()) * 10 + (s.last() as int - 48));
        assert forall|i: int| 0 <= i < s.len() implies is_ascii_digit(#[trigger] s[i]) by {
            if i < s.len() - 1 {
                assert(s[i] == nat_digits(n / 10)[i]);
            }
        }
    }
}

/// Digit strings only grow in value as digits are appended.
proof fn lemma_digits_value_prefix(s: Seq<char>, k: int)
    requires
        0 <= k <= s.len(),
        all_digits(s),
    ensures
        digits_value(s.take(k)) <= digits_value(s),
        0 <= digits_value(s.take(k)),
    decreases s.len() - k,
{
    if k < s.len() {
        lemma_digits_value_prefix(s, k + 1);
        assert(s.take(k + 1).drop_last() == s.take(k));
        assert(is_ascii_digit(s[k]));
    } else {
        assert(s.take(k) == s);
        lemma_digits_value_nonneg(s);
    }
}

proof fn lemma_digits_value_nonneg(s: Seq<char>)
    requires
        all_digits(s),
    ensures
        digits_value(s) >= 0,
    decreases s.len(),
{
    if s.len() > 0 {
        assert(is_ascii_digit(s[s.len() - 1]));
        assert(all_digits(s.drop_last())) by {
            assert forall|i: int| 0 <= i < s.len() - 1 implies is_ascii_digit(
                #[trigger] s.drop_last()[i],
            ) by {
                assert(s.drop_last()[i] == s[i]);
            }
        }
        lemma_digits_value_nonneg(s.drop_last());
    }
}

/// The character of a decimal digit.
fn digit_of(d: u64) -> (c: char)
    requires
        d < 10,
    ensures
        c == digit_char(d as int),
{
    let b: u8 = 48 + (d as u8);
    b as char
}

/// The decimal digits of `n`.
pub fn u64_digits(n: u64) -> (r: Vec<char>)
    ensures
        r@ == nat_digits(n as nat),
    decreases n,
{
    if n < 10 {
        let mut v: Vec<char> = Vec::new();
        v.push(digit_of(n));
        v
    } else {
        let mut v = u64_digits(n / 10);
        v.push(digit_of(n % 10));
        v
    }
}

/// `i64` rendered as `Display` renders it.
pub fn i64_decimal(n: i64) -> (r: Vec<char>)
    ensures
        r@ == decimal(n as int),
{
    if n < 0 {
        let m: i128 = -(n as i128);
        let mut v: Vec<char> = Vec::new();
        v.push('-');
        let ds = u64_digits(m as u64);
        extend_chars(&mut v, ds.as_slice());
        v
    } else {
        u64_digits(n as u64)
    }
}

/// Groups a digit string in threes from the right with commas.
pub fn group_thousands_exec(ds: &[char]) -> (r: Vec<char>)
    ensures
        r@ == group_thousands(ds@),
    decreases ds.len(),
{
    if ds.len() <= 3 {
        to_vec(ds)
    } else {
        let cut = ds.len() - 3;
        let mut v = group_thousands_exec(&ds[0..cut]);
        v.push(',');
        extend_chars(&mut v, &ds[cut..ds.len()]);
        assert(ds@.subrange(0, cut as int) == ds@.take(cut as int));
        assert(ds@.subrange(cut as int, ds.len() as int) == ds@.skip(cut as int));
        v
    }
}

/// `u64` with a comma every three digits from the right.
pub fn u64_with_commas(n: u64) -> (r: Vec<char>)
    ensures
        r@ == with_commas(n as nat),
{
    let ds = u64_digits(n);
    group_thousands_exec(ds.as_slice())
}

/// `str::parse::<i32>`.
pub fn parse_i32_str(s: &str) -> (r: Option<i32>)
    ensures
        r == parse_i32_spec(s@),
{
    let cs = str_chars(s);
    parse_i32(cs.as_slice())
}

/// `str::parse::<i32>` over characters.
pub fn parse_i32(s: &[char]) -> (r: Option<i32>)
    ensures
        r == parse_i32_spec(s@),
{
    let neg = s.len() > 0 && s[0] == '-';
    let start: usize = if s.len() > 0 && (s[0] == '-' || s[0] == '+') {
        1
    } else {
        0
    };
    let ghost body = if s@.len() > 0 && (s@[0] == '-' || s@[0] == '+') {
        s@.drop_first()
    } else {
        s@
    };
    assert(body == s@.skip(start as int));
    if start == s.len() {
        return None;
    }
    let bound: i64 = 2147483648;
    let mut acc: i64 = 0;
    let mut i: usize = start;
    while i < s.len()
        invariant
            start <= i <= s.len(),
            body == s@.skip(start as int),
            body == (if s@.len() > 0 && (s@[0] == '-' || s@[0] == '+') {
                s@.drop_first()
            } else {
                s@
            }),
            bound == 2147483648,
            neg == (s@.len() > 0 && s@[0] == '-'),
            forall|j: int| start <= j < i ==> is_ascii_digit(#[trigger] s@[j]),
            acc == digits_value(body.take(i - start)),
            0 <= acc <= bound,
        decreases s.len() - i,
    {
        let c = s[i];
        if !('0' <= c && c <= '9') {
            assert(body[i - start] == s@[i as int]);
            assert(!is_ascii_digit(body[i - start]));
            assert(!all_digits(body));
            assert(parse_i32_spec(s@) is None);
            return None;
        }
        let d = (c as u32 - 48) as i64;
        assert(body.take(i - start + 1).drop_last() == body.take(i - start));
        assert(body.take(i - start + 1).last() == c);
        assert(acc * 10 <= bound * 10) by (nonlinear_arith)
            requires
                0 <= acc <= bound,
                bound == 2147483648,
        ;
        acc = acc * 10 + d;
        if acc > bound {
            proof {
                if all_digits(body) {
                    lemma_digits_value_prefix(body, i - start + 1);
                }
            }
            return None;
        }
        i = i + 1;
    }
    assert(body.take(i - start) == body);
    assert(all_digits(body)) by {
        assert forall|j: int| 0 <= j < body.len() implies is_ascii_digit(#[trigger] body[j]) by {
            assert(body[j] == s@[start + j]);
        }
    }
    if neg {
        let v = -acc;
        Some(v as i32)
    } else {
        if acc > 2147483647 {
            return None;
        }
        Some(acc as i32)
    }
}

/// Rendering a number in decimal and parsing it back gives the number again.
pub proof fn lemma_parse_decimal_roundtrip(n: i32)
    ensures
        parse_i32_spec(decimal(n as int)) == Some(n),
{
    if n < 0 {
        let m = (-n) as nat;
        lemma_nat_digits_are_digits(m);
        let s = decimal(n as int);
        assert(s[0] == '-');
        assert(s.drop_first() == nat_digits(m));
    } else {
        lemma_nat_digits_are_digits(n as nat);
        let s = nat_digits(n as nat);
        assert(is_ascii_digit(s[0]));
    }
}

} // verus!
