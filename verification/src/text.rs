//! Character-level text utilities: the Unicode classes the bot's parsers rely
//! on, prefix/suffix scanning over character sequences, and conversions
//! between `str`, `String` and character vectors.

use vstd::prelude::*;

verus! {

broadcast use vstd::string::group_string_axioms;

/// `String::push` appends one character at the end of the string.
pub assume_specification[ String::push ](s: &mut String, ch: char)
    ensures
        final(s)@ == old(s)@.push(ch),
;

// ---------------------------------------------------------------------------
// Character classes
// ---------------------------------------------------------------------------

/// The Unicode `White_Space` property, which `char::is_whitespace` tests and
/// which `str::split_whitespace` and `str::trim` split and trim on.
pub open spec fn is_white_space(c: char) -> bool {
    let u = c as u32;
    ||| 0x09 <= u <= 0x0D
    ||| u == 0x20
    ||| u == 0x85
    ||| u == 0xA0
    ||| u == 0x1680
    ||| 0x2000 <= u <= 0x200A
    ||| u == 0x2028
    ||| u == 0x2029
    ||| u == 0x202F
    ||| u == 0x205F
    ||| u == 0x3000
}

/// Whether a character carries a numeric general category (`Nd`, `Nl` or
/// `No`) and lies outside ASCII. The tables live in std.
pub uninterp spec fn non_ascii_numeric(c: char) -> bool;

/// `char::is_numeric`: on ASCII exactly the decimal digits; elsewhere never
/// a `White_Space` character (those are of the categories `Cc`, `Zs`, `Zl`
/// and `Zp`, none of them numeric), and otherwise as the Unicode tables say.
pub open spec fn char_is_numeric(c: char) -> bool {
    if (c as u32) < 128 {
        '0' <= c && c <= '9'
    } else {
        !is_white_space(c) && non_ascii_numeric(c)
    }
}

/// Calls `char::is_numeric`. The claim: on ASCII characters it holds exactly
/// of `'0'..='9'` (the ASCII part of the `Nd` category); beyond ASCII it
/// never holds of a `White_Space` character (U+0085, U+00A0, U+1680,
/// U+2000..U+200A, U+2028, U+2029, U+202F, U+205F, U+3000 are of the
/// categories `Cc`, `Zs`, `Zl`, `Zp`), and for the rest its answer is the
/// named table `non_ascii_numeric`.
#[verifier::external_body]
pub(crate) fn is_numeric(c: char) -> (r: bool)
    ensures
        r == (if (c as u32) < 128 {
            '0' <= c && c <= '9'
        } else {
            !is_white_space(c) && non_ascii_numeric(c)
        }),
{
    c.is_numeric()
}

/// Tests the Unicode `White_Space` property (as `char::is_whitespace` does).
pub fn is_whitespace(c: char) -> (r: bool)
    ensures
        r == is_white_space(c),
{
    let u = c as u32;
    (0x09 <= u && u <= 0x0D) || u == 0x20 || u == 0x85 || u == 0xA0 || u == 0x1680 || (0x2000
        <= u && u <= 0x200A) || u == 0x2028 || u == 0x2029 || u == 0x202F || u == 0x205F || u
        == 0x3000
}

/// The characters that `char::to_lowercase` yields for `c` (Unicode's
/// lowercase mapping; one or more characters).
pub uninterp spec fn char_lowercase(c: char) -> Seq<char>;

/// Calls `char::to_lowercase` and collects the characters it yields. The
/// claim: the result is the named mapping `char_lowercase(c)`, a function of
/// `c` alone.
#[verifier::external_body]
pub(crate) fn to_lowercase(c: char) -> (r: Vec<char>)
    ensures
        r@ == char_lowercase(c),
{
    c.to_lowercase().collect()
}

/// A class of characters that a scan stops at or runs over.
pub enum CharClass {
    Whitespace,
    NotWhitespace,
    Numeric,
    Is(char),
    IsNot(char),
}

impl CharClass {
    pub open spec fn holds(self, c: char) -> bool {
        match self {
            CharClass::Whitespace => is_white_space(c),
            CharClass::NotWhitespace => !is_white_space(c),
            CharClass::Numeric => char_is_numeric(c),
            CharClass::Is(d) => c == d,
            CharClass::IsNot(d) => c != d,
        }
    }

    pub fn test(&self, c: char) -> (r: bool)
        ensures
            r == self.holds(c),
    {
        match self {
            CharClass::Whitespace => is_whitespace(c),
            CharClass::NotWhitespace => !is_whitespace(c),
            CharClass::Numeric => is_numeric(c),
            CharClass::Is(d) => c == *d,
            CharClass::IsNot(d) => c != *d,
        }
    }
}

// ---------------------------------------------------------------------------
// Scanning specifications
// ---------------------------------------------------------------------------

/// Number of leading characters of `s` in class `cls`.
pub open spec fn lead_count(s: Seq<char>, cls: CharClass) -> nat
    decreases s.len(),
{
    if s.len() > 0 && cls.holds(s[0]) {
        1 + lead_count(s.drop_first(), cls)
    } else {
        0
    }
}

/// Number of trailing characters of `s` in class `cls`.
pub open spec fn trail_count(s: Seq<char>, cls: CharClass) -> nat
    decreases s.len(),
{
    if s.len() > 0 && cls.holds(s.last()) {
        1 + trail_count(s.drop_last(), cls)
    } else {
        0
    }
}

/// `s` without its leading characters of class `cls`.
pub open spec fn skip_class(s: Seq<char>, cls: CharClass) -> Seq<char> {
    s.skip(lead_count(s, cls) as int)
}

/// The leading run of class `cls` in `s`.
pub open spec fn take_class(s: Seq<char>, cls: CharClass) -> Seq<char> {
    s.take(lead_count(s, cls) as int)
}

/// `s` without its trailing characters of class `cls`.
pub open spec fn drop_trailing_class(s: Seq<char>, cls: CharClass) -> Seq<char> {
    s.take(s.len() - trail_count(s, cls))
}

/// `str::trim_start`.
pub open spec fn trim_start(s: Seq<char>) -> Seq<char> {
    skip_class(s, CharClass::Whitespace)
}

/// `str::trim`: both leading and trailing white space removed.
pub open spec fn trim(s: Seq<char>) -> Seq<char> {
    drop_trailing_class(trim_start(s), CharClass::Whitespace)
}

/// `str::trim_start_matches` with a string pattern: removes as many
/// back-to-back copies of `pat` from the front of `s` as there are (an empty
/// pattern removes nothing).
pub open spec fn strip_repeated(s: Seq<char>, pat: Seq<char>) -> Seq<char>
    decreases s.len(),
{
    if pat.len() > 0 && pat.len() <= s.len() && s.take(pat.len() as int) == pat {
        strip_repeated(s.skip(pat.len() as int), pat)
    } else {
        s
    }
}

/// The number of bytes of the UTF-8 encoding of `c`.
pub open spec fn utf8_width(c: char) -> nat {
    vstd::utf8::encode_scalar(c as u32).len()
}

/// `str::get(n..)` expressed over characters: the suffix that starts `n`
/// bytes into the UTF-8 encoding, or `None` where `n` is past the end or
/// falls inside a character.
pub open spec fn skip_bytes(s: Seq<char>, n: int) -> Option<Seq<char>>
    decreases s.len(),
{
    if n == 0 {
        Some(s)
    } else if n < 0 || s.len() == 0 {
        None
    } else if utf8_width(s[0]) > n {
        None
    } else {
        skip_bytes(s.drop_first(), n - utf8_width(s[0]))
    }
}

// ---------------------------------------------------------------------------
// Lemmas on the scanning specifications
// ---------------------------------------------------------------------------

/// The UTF-8 encoding of a concatenation is the concatenation of encodings.
pub proof fn lemma_encode_utf8_concat(a: Seq<char>, b: Seq<char>)
    ensures
        vstd::utf8::encode_utf8(a + b) == vstd::utf8::encode_utf8(a) + vstd::utf8::encode_utf8(b),
    decreases a.len(),
{
    if a.len() == 0 {
        assert(a + b == b);
    } else {
        assert((a + b).drop_first() == a.drop_first() + b);
        assert((a + b)[0] == a[0]);
        lemma_encode_utf8_concat(a.drop_first(), b);
    }
}

/// A leading run is measured exactly by where the class first fails.
pub proof fn lemma_lead_count(s: Seq<char>, cls: CharClass, i: int)
    requires
        0 <= i <= s.len(),
        forall|j: int| 0 <= j < i ==> cls.holds(#[trigger] s[j]),
        i == s.len() || !cls.holds(s[i]),
    ensures
        lead_count(s, cls) == i,
    decreases i,
{
    if i > 0 {
        assert(cls.holds(s[0]));
        let t = s.drop_first();
        assert forall|j: int| 0 <= j < i - 1 implies cls.holds(#[trigger] t[j]) by {
            assert(t[j] == s[j + 1]);
        }
        if i < s.len() {
            assert(t[i - 1] == s[i]);
        }
        lemma_lead_count(t, cls, i - 1);
    }
}

/// A trailing run is measured exactly by where the class first fails from
/// the end.
pub proof fn lemma_trail_count(s: Seq<char>, cls: CharClass, i: int)
    requires
        0 <= i <= s.len(),
        forall|j: int| s.len() - i <= j < s.len() ==> cls.holds(#[trigger] s[j]),
        i == s.len() || !cls.holds(s[s.len() - 1 - i]),
    ensures
        trail_count(s, cls) == i,
    decreases i,
{
    if i > 0 {
        assert(cls.holds(s[s.len() - 1]));
        let t = s.drop_last();
        assert forall|j: int| t.len() - (i - 1) <= j < t.len() implies cls.holds(
            #[trigger] t[j],
        ) by {
            assert(t[j] == s[j]);
        }
        if i < s.len() {
            assert(t[t.len() - 1 - (i - 1)] == s[s.len() - 1 - i]);
        }
        lemma_trail_count(t, cls, i - 1);
    }
}

/// The characters of a leading run are in the class, and the one after it
/// (if any) is not.
pub proof fn lemma_lead_count_bounds(s: Seq<char>, cls: CharClass)
    ensures
        lead_count(s, cls) <= s.len(),
        forall|j: int| 0 <= j < lead_count(s, cls) ==> cls.holds(#[trigger] s[j]),
        lead_count(s, cls) < s.len() ==> !cls.holds(s[lead_count(s, cls) as int]),
    decreases s.len(),
{
    if s.len() > 0 && cls.holds(s[0]) {
        let t = s.drop_first();
        lemma_lead_count_bounds(t, cls);
        assert forall|j: int| 0 <= j < lead_count(s, cls) implies cls.holds(#[trigger] s[j]) by {
            if j > 0 {
                assert(s[j] == t[j - 1]);
            }
        }
        if lead_count(s, cls) < s.len() {
            assert(s[lead_count(s, cls) as int] == t[lead_count(t, cls) as int]);
        }
    }
}

/// A trailing run never exceeds the sequence.
pub proof fn lemma_trail_count_bounds(s: Seq<char>, cls: CharClass)
    ensures
        trail_count(s, cls) <= s.len(),
    decreases s.len(),
{
    if s.len() > 0 && cls.holds(s.last()) {
        lemma_trail_count_bounds(s.drop_last(), cls);
    }
}

/// Skipping the bytes of a whole prefix lands exactly after it.
pub proof fn lemma_skip_bytes_concat(a: Seq<char>, b: Seq<char>)
    ensures
        skip_bytes(a + b, vstd::utf8::encode_utf8(a).len() as int) == Some(b),
    decreases a.len(),
{
    if a.len() == 0 {
        assert(a + b == b);
    } else {
        let c = a[0];
        vstd::utf8::char_is_scalar(c);
        assert(utf8_width(c) >= 1);
        assert((a + b).drop_first() == a.drop_first() + b);
        assert((a + b)[0] == c);
        lemma_skip_bytes_concat(a.drop_first(), b);
    }
}

// ---------------------------------------------------------------------------
// Executable scanning
// ---------------------------------------------------------------------------

/// The characters of a string slice, in order.
pub fn str_chars(s: &str) -> (res: Vec<char>)
    ensures
        res@ == s@,
{
    let mut res: Vec<char> = Vec::new();
    for c in it: s.chars()
        invariant
            res@ == it.seq().take(it.index() as int),
    {
        res.push(c);
    }
    res
}

/// Builds a string from a slice of characters.
pub fn chars_to_string(cs: &[char]) -> (res: String)
    ensures
        res@ == cs@,
{
    let mut res = String::new();
    let mut i: usize = 0;
    while i < cs.len()
        invariant
            i <= cs.len(),
            res@ == cs@.take(i as int),
        decreases cs.len() - i,
    {
        res.push(cs[i]);
        assert(cs@.take(i as int + 1) == cs@.take(i as int).push(cs@[i as int]));
        i = i + 1;
    }
    assert(cs@.take(cs.len() as int) == cs@);
    res
}

/// Copies a slice of characters into a vector.
pub fn to_vec(cs: &[char]) -> (res: Vec<char>)
    ensures
        res@ == cs@,
{
    let mut res: Vec<char> = Vec::new();
    let mut i: usize = 0;
    while i < cs.len()
        invariant
            i <= cs.len(),
            res@ == cs@.take(i as int),
        decreases cs.len() - i,
    {
        res.push(cs[i]);
        assert(cs@.take(i as int + 1) == cs@.take(i as int).push(cs@[i as int]));
        i = i + 1;
    }
    assert(cs@.take(cs.len() as int) == cs@);
    res
}

/// Appends the characters of `cs` to `v`.
pub fn extend_chars(v: &mut Vec<char>, cs: &[char])
    ensures
        final(v)@ == old(v)@ + cs@,
{
    let mut i: usize = 0;
    while i < cs.len()
        invariant
            i <= cs.len(),
            v@ == old(v)@ + cs@.take(i as int),
        decreases cs.len() - i,
    {
        v.push(cs[i]);
        assert(cs@.take(i as int + 1) == cs@.take(i as int).push(cs@[i as int]));
        i = i + 1;
    }
    assert(cs@.take(cs.len() as int) == cs@);
}

/// Appends the characters of a string slice to `v`.
pub fn push_str(v: &mut Vec<char>, s: &str)
    ensures
        final(v)@ == old(v)@ + s@,
{
    let cs = str_chars(s);
    extend_chars(v, cs.as_slice());
}

/// Joins two strings.
pub fn concat2(a: &str, b: &str) -> (r: String)
    ensures
        r@ == a@ + b@,
{
    let mut v: Vec<char> = Vec::new();
    push_str(&mut v, a);
    push_str(&mut v, b);
    chars_to_string(v.as_slice())
}


/// `a`, `b` and `c` one after the other.
pub fn concat3(a: &str, b: &str, c: &str) -> (r: String)
    ensures
        r@ == a@ + b@ + c@,
{
    let mut v: Vec<char> = Vec::new();
    push_str(&mut v, a);
    push_str(&mut v, b);
    push_str(&mut v, c);
    chars_to_string(v.as_slice())
}

/// `p` occurs somewhere in `s` (`str::contains` with a string pattern).
pub open spec fn contains_seq(s: Seq<char>, p: Seq<char>) -> bool {
    exists|i: int|
        0 <= i && i + p.len() <= s.len() && #[trigger] s.subrange(i, i + p.len()) == p
}

/// `str::contains` with a string pattern.
pub fn str_contains(s: &str, p: &str) -> (r: bool)
    ensures
        r == contains_seq(s@, p@),
{
    let sc = str_chars(s);
    let pc = str_chars(p);
    if pc.len() > sc.len() {
        return false;
    }
    if pc.len() == 0 {
        assert(s@.subrange(0int, 0int + p@.len()) =~= p@);
        assert(contains_seq(s@, p@));
        return true;
    }
    let mut i: usize = 0;
    while i <= sc.len() - pc.len()
        invariant
            0 < pc.len() <= sc.len(),
            i <= sc.len() - pc.len() + 1,
            sc@ == s@,
            pc@ == p@,
            forall|j: int| 0 <= j < i ==> #[trigger] s@.subrange(j, j + p@.len()) != p@,
        decreases sc.len() - pc.len() + 1 - i,
    {
        if occurs_at(sc.as_slice(), i, pc.as_slice()) {
            assert(sc@.skip(i as int).take(pc.len() as int) == s@.subrange(i as int, i + p@.len()));
            return true;
        }
        assert(sc@.skip(i as int).take(pc.len() as int) == s@.subrange(i as int, i + p@.len()));
        i = i + 1;
    }
    false
}

/// Whether two character slices are equal.
pub fn chars_eq(a: &[char], b: &[char]) -> (r: bool)
    ensures
        r == (a@ == b@),
{
    if a.len() != b.len() {
        return false;
    }
    let mut i: usize = 0;
    while i < a.len()
        invariant
            i <= a.len(),
            a.len() == b.len(),
            forall|j: int| 0 <= j < i ==> a@[j] == b@[j],
        decreases a.len() - i,
    {
        if a[i] != b[i] {
            return false;
        }
        i = i + 1;
    }
    assert(a@ =~= b@);
    true
}

/// Length of the leading run of class `cls` in `s`.
pub fn lead_len(s: &[char], cls: &CharClass) -> (n: usize)
    ensures
        n == lead_count(s@, *cls),
        n <= s.len(),
{
    let mut i: usize = 0;
    while i < s.len() && cls.test(s[i])
        invariant
            i <= s.len(),
            forall|j: int| 0 <= j < i ==> cls.holds(#[trigger] s@[j]),
        decreases s.len() - i,
    {
        i = i + 1;
    }
    proof {
        lemma_lead_count(s@, *cls, i as int);
    }
    i
}

/// Length of the trailing run of class `cls` in `s`.
pub fn trail_len(s: &[char], cls: &CharClass) -> (n: usize)
    ensures
        n == trail_count(s@, *cls),
        n <= s.len(),
{
    let mut i: usize = 0;
    while i < s.len() && cls.test(s[s.len() - 1 - i])
        invariant
            i <= s.len(),
            forall|j: int| s.len() - i <= j < s.len() ==> cls.holds(#[trigger] s@[j]),
        decreases s.len() - i,
    {
        i = i + 1;
    }
    proof {
        lemma_trail_count(s@, *cls, i as int);
    }
    i
}

/// Whether `pat` occurs in `s` starting at index `at`.
pub fn occurs_at(s: &[char], at: usize, pat: &[char]) -> (r: bool)
    requires
        at <= s.len(),
    ensures
        r == (pat.len() <= s.len() - at && s@.skip(at as int).take(pat.len() as int) == pat@),
{
    if pat.len() > s.len() - at {
        return false;
    }
    let mut i: usize = 0;
    while i < pat.len()
        invariant
            i <= pat.len(),
            pat.len() <= s.len() - at,
            forall|j: int| 0 <= j < i ==> s@[at + j] == pat@[j],
        decreases pat.len() - i,
    {
        if s[at + i] != pat[i] {
            assert(s@.skip(at as int).take(pat.len() as int)[i as int] == s@[at + i]);
            return false;
        }
        i = i + 1;
    }
    assert(s@.skip(at as int).take(pat.len() as int) =~= pat@);
    true
}

/// `str::trim_start_matches` with a string pattern, as an index: how many
/// leading characters the repeated copies of `pat` cover.
pub fn strip_repeated_len(s: &[char], pat: &[char]) -> (n: usize)
    ensures
        n <= s.len(),
        s@.skip(n as int) == strip_repeated(s@, pat@),
{
    let mut i: usize = 0;
    if pat.len() == 0 {
        assert(s@.skip(0) == s@);
        return 0;
    }
    assert(s@.skip(0) == s@);
    while occurs_at(s, i, pat)
        invariant
            i <= s.len(),
            pat.len() > 0,
            strip_repeated(s@, pat@) == strip_repeated(s@.skip(i as int), pat@),
        decreases s.len() - i,
    {
        let ghost t = s@.skip(i as int);
        assert(t.skip(pat.len() as int) == s@.skip(i + pat.len()));
        i = i + pat.len();
    }
    i
}

/// Number of bytes in the UTF-8 encoding of `cs` (`str::len`).
pub fn utf8_len(cs: &[char]) -> (n: u128)
    ensures
        n == vstd::utf8::encode_utf8(cs@).len(),
{
    let mut n: u128 = 0;
    let mut i: usize = 0;
    assert(cs@.take(0) =~= Seq::<char>::empty());
    while i < cs.len()
        invariant
            i <= cs.len(),
            n == vstd::utf8::encode_utf8(cs@.take(i as int)).len(),
            n <= 4 * i,
        decreases cs.len() - i,
    {
        let c = cs[i];
        let u = c as u32;
        let w: u128 = if u < 0x80 {
            1
        } else if u < 0x800 {
            2
        } else if u < 0x10000 {
            3
        } else {
            4
        };
        proof {
            vstd::utf8::char_is_scalar(c);
            lemma_encode_utf8_concat(cs@.take(i as int), seq![c]);
            assert(cs@.take(i + 1) == cs@.take(i as int) + seq![c]);
            assert(seq![c].drop_first() =~= Seq::<char>::empty());
            assert(vstd::utf8::encode_utf8(Seq::<char>::empty()) =~= Seq::<u8>::empty());
            assert(seq![c][0] == c);
            assert(vstd::utf8::encode_utf8(seq![c]) =~= vstd::utf8::encode_scalar(c as u32));
        }
        n = n + w;
        i = i + 1;
    }
    assert(cs@.take(cs.len() as int) == cs@);
    n
}

/// `str::get(n..)` over characters: the index of the character at which the
/// suffix starting `n` bytes in begins, if that is a character boundary.
pub fn skip_bytes_index(s: &[char], n: u128) -> (r: Option<usize>)
    ensures
        match r {
            Some(k) => k <= s.len() && skip_bytes(s@, n as int) == Some(s@.skip(k as int)),
            None => skip_bytes(s@, n as int) is None,
        },
{
    let mut k: usize = 0;
    let mut m: u128 = n;
    assert(s@.skip(0) == s@);
    while m > 0
        invariant
            k <= s.len(),
            skip_bytes(s@, n as int) == skip_bytes(s@.skip(k as int), m as int),
        decreases m,
    {
        if k == s.len() {
            return None;
        }
        let c = s[k];
        let u = c as u32;
        let w: u128 = if u < 0x80 {
            1
        } else if u < 0x800 {
            2
        } else if u < 0x10000 {
            3
        } else {
            4
        };
        proof {
            vstd::utf8::char_is_scalar(c);
        }
        assert(w == utf8_width(c));
        let ghost t = s@.skip(k as int);
        assert(t[0] == c);
        if w > m {
            return None;
        }
        assert(t.drop_first() == s@.skip(k + 1));
        m = m - w;
        k = k + 1;
    }
    Some(k)
}

} // verus!
