//! `key=value` argument lists, as admins write them for activities:
//! `min_fireteam_size=1 max_fireteam_size=6 name="Last Wish, Enhanced"`.

use vstd::prelude::*;
use crate::matching::opt_chars;
use crate::text::{
    CharClass, drop_trailing_class, is_white_space, lemma_trail_count, lead_count, lead_len, skip_class, str_chars, chars_to_string,
    to_vec, trail_count, trail_len,
};

verus! {

/// A key and its value, as character sequences.
pub type Entry = (Seq<char>, Seq<char>);

/// No key occurs twice.
pub open spec fn unique_keys(e: Seq<Entry>) -> bool {
    forall|i: int, j: int| 0 <= i < j < e.len() ==> #[trigger] e[i].0 != #[trigger] e[j].0
}

/// The position of key `k`, if present.
pub open spec fn key_pos(e: Seq<Entry>, k: Seq<char>) -> Option<int> {
    if exists|i: int| 0 <= i < e.len() && #[trigger] e[i].0 == k {
        Some(choose|i: int| 0 <= i < e.len() && #[trigger] e[i].0 == k)
    } else {
        None
    }
}

/// The value stored under `k`.
pub open spec fn kv_lookup(e: Seq<Entry>, k: Seq<char>) -> Option<Seq<char>> {
    match key_pos(e, k) {
        Some(i) => Some(e[i].1),
        None => None,
    }
}

/// Stores `v` under `k`: replaces the value of an existing key in place, or
/// adds the key at the end (as inserting into a map does).
pub open spec fn kv_insert(e: Seq<Entry>, k: Seq<char>, v: Seq<char>) -> Seq<Entry> {
    match key_pos(e, k) {
        Some(i) => e.update(i, (k, v)),
        None => e.push((k, v)),
    }
}

/// Removes the entry of `k`, if any, keeping the others in order.
pub open spec fn kv_remove(e: Seq<Entry>, k: Seq<char>) -> Seq<Entry> {
    match key_pos(e, k) {
        Some(i) => e.remove(i),
        None => e,
    }
}

/// The entries that collecting `pairs` into a map gives: a later pair for a
/// key overrides an earlier one.
pub open spec fn kv_from_pairs(pairs: Seq<Entry>) -> Seq<Entry>
    decreases pairs.len(),
{
    if pairs.len() == 0 {
        Seq::empty()
    } else {
        kv_insert(kv_from_pairs(pairs.drop_last()), pairs.last().0, pairs.last().1)
    }
}

/// `str::split` on a character: the pieces between occurrences of `c`
/// (one piece more than there are occurrences).
pub open spec fn split_char(s: Seq<char>, c: char) -> Seq<Seq<char>>
    decreases s.len(),
{
    if s.len() == 0 {
        seq![Seq::empty()]
    } else {
        let rest = split_char(s.drop_first(), c);
        if s[0] == c {
            seq![Seq::empty()] + rest
        } else {
            rest.update(0, seq![s[0]] + rest[0])
        }
    }
}

/// `p` put in front of the first piece.
pub open spec fn prepend_first(p: Seq<char>, pieces: Seq<Seq<char>>) -> Seq<Seq<char>> {
    pieces.update(0, p + pieces[0])
}

/// Splitting gives at least one piece.
pub proof fn lemma_split_char_nonempty(s: Seq<char>, c: char)
    ensures
        split_char(s, c).len() >= 1,
    decreases s.len(),
{
    if s.len() > 0 {
        lemma_split_char_nonempty(s.drop_first(), c);
    }
}

/// Splitting gives more than one piece exactly where the separator occurs.
pub proof fn lemma_split_char_pieces(s: Seq<char>, c: char)
    ensures
        split_char(s, c).len() >= 2 <==> s.contains(c),
    decreases s.len(),
{
    lemma_split_char_nonempty(s, c);
    if s.len() > 0 {
        let t = s.drop_first();
        lemma_split_char_pieces(t, c);
        lemma_split_char_nonempty(t, c);
        if t.contains(c) {
            let i = choose|i: int| 0 <= i < t.len() && t[i] == c;
            assert(s[i + 1] == c);
        }
        if s.contains(c) && s[0] != c {
            let i = choose|i: int| 0 <= i < s.len() && s[i] == c;
            assert(t[i - 1] == c);
        }
    }
}

/// Splitting a concatenation: the last piece of the first part joins the
/// first piece of the second.
pub proof fn lemma_split_char_concat(a: Seq<char>, b: Seq<char>, c: char)
    ensures
        split_char(a + b, c) == split_char(a, c).drop_last() + seq![
            split_char(a, c).last() + split_char(b, c)[0],
        ] + split_char(b, c).drop_first(),
    decreases a.len(),
{
    let sb = split_char(b, c);
    lemma_split_char_nonempty(b, c);
    lemma_split_char_nonempty(a, c);
    if a.len() == 0 {
        assert(a + b =~= b);
        assert(split_char(a, c) =~= seq![Seq::<char>::empty()]);
        assert(Seq::<char>::empty() + sb[0] =~= sb[0]);
        assert(sb =~= seq![sb[0]] + sb.drop_first());
        assert(split_char(a, c).drop_last() =~= Seq::<Seq<char>>::empty());
        assert(Seq::<Seq<char>>::empty() + seq![sb[0]] =~= seq![sb[0]]);
    } else {
        let t = a.drop_first();
        lemma_split_char_concat(t, b, c);
        lemma_split_char_nonempty(t, c);
        assert((a + b).drop_first() =~= t + b);
        assert((a + b)[0] == a[0]);
        let st = split_char(t, c);
        let stb = split_char(t + b, c);
        let sa = split_char(a, c);
        if a[0] == c {
            assert(sa == seq![Seq::<char>::empty()] + st);
            assert(sa.drop_last() =~= seq![Seq::<char>::empty()] + st.drop_last());
            assert(sa.last() == st.last());
            assert(split_char(a + b, c) =~= sa.drop_last() + seq![sa.last() + sb[0]]
                + sb.drop_first());
        } else {
            assert(sa == st.update(0, seq![a[0]] + st[0]));
            if st.len() == 1 {
                assert(stb[0] == st.last() + sb[0]);
                assert(sa.drop_last() =~= Seq::<Seq<char>>::empty());
                assert(sa.last() == seq![a[0]] + st[0]);
                assert(seq![a[0]] + (st[0] + sb[0]) =~= (seq![a[0]] + st[0]) + sb[0]);
                assert(split_char(a + b, c) =~= sa.drop_last() + seq![sa.last() + sb[0]]
                    + sb.drop_first());
            } else {
                assert(stb[0] == st[0]);
                assert(sa.last() == st.last());
                assert(split_char(a + b, c) =~= sa.drop_last() + seq![sa.last() + sb[0]]
                    + sb.drop_first());
            }
        }
    }
}

/// A text without the separator splits into itself.
pub proof fn lemma_split_char_whole(s: Seq<char>, c: char)
    requires
        !s.contains(c),
    ensures
        split_char(s, c) == seq![s],
    decreases s.len(),
{
    if s.len() > 0 {
        let t = s.drop_first();
        assert(!t.contains(c)) by {
            if t.contains(c) {
                let i = choose|i: int| 0 <= i < t.len() && t[i] == c;
                assert(s[i + 1] == c);
            }
        }
        lemma_split_char_whole(t, c);
        assert(s[0] != c);
        assert(seq![s[0]] + t =~= s);
    } else {
        assert(s =~= Seq::<char>::empty());
    }
}

/// `x.rsplitn(2, ' ')` in reverse order: the text before the last space and
/// the text after it, or `x` alone where it has no space.
pub open spec fn split_last_space(x: Seq<char>) -> Seq<Seq<char>> {
    let k = trail_count(x, CharClass::IsNot(' '));
    if k >= x.len() {
        seq![x]
    } else {
        seq![x.take(x.len() - k - 1), x.skip(x.len() - k)]
    }
}

/// The pieces of every fragment split at its last space, in order.
pub open spec fn split_fragments(frags: Seq<Seq<char>>) -> Seq<Seq<char>>
    decreases frags.len(),
{
    if frags.len() == 0 {
        Seq::empty()
    } else {
        split_fragments(frags.drop_last()) + split_last_space(frags.last())
    }
}

/// The alternating keys and values of an argument list split at `=`: the
/// first fragment is a key, the last a value, and each fragment in between
/// holds a value, a space and the next key.
pub open spec fn kv_tokens(frags: Seq<Seq<char>>) -> Seq<Seq<char>> {
    seq![frags[0]] + split_fragments(frags.subrange(1, frags.len() - 1)) + seq![frags.last()]
}

/// A value without its surrounding double quotes (`str::trim_matches('"')`).
pub open spec fn trim_quotes(v: Seq<char>) -> Seq<char> {
    drop_trailing_class(skip_class(v, CharClass::Is('"')), CharClass::Is('"'))
}

/// Consecutive tokens taken two by two as key and value (an odd last token is
/// dropped).
pub open spec fn pair_up(toks: Seq<Seq<char>>) -> Seq<Entry> {
    Seq::new(toks.len() / 2, |i: int| (toks[2 * i], trim_quotes(toks[2 * i + 1])))
}

/// What parsing an argument list gives: `None` without any `=`, otherwise
/// the collected key/value entries.
pub open spec fn parse_kv_args_spec(args: Seq<char>) -> Option<Seq<Entry>> {
    let frags = split_char(args, '=');
    if frags.len() < 2 {
        None
    } else {
        Some(kv_from_pairs(pair_up(kv_tokens(frags))))
    }
}

/// Parsed `key=value` arguments: each key once, in the order keys first
/// appeared, with the value last given for it.
pub struct KvArgs {
    entries: Vec<(String, String)>,
}

/// The view of a list of key/value strings.
pub open spec fn entries_view(e: Seq<(String, String)>) -> Seq<Entry> {
    e.map_values(|p: (String, String)| (p.0@, p.1@))
}

impl View for KvArgs {
    type V = Seq<Entry>;

    closed spec fn view(&self) -> Seq<Entry> {
        entries_view(self.entries@)
    }
}

/// Inserting keeps keys unique.
pub proof fn lemma_kv_insert_unique(e: Seq<Entry>, k: Seq<char>, v: Seq<char>)
    requires
        unique_keys(e),
    ensures
        unique_keys(kv_insert(e, k, v)),
        kv_lookup(kv_insert(e, k, v), k) == Some(v),
        forall|k2: Seq<char>| k2 != k ==> kv_lookup(kv_insert(e, k, v), k2) == kv_lookup(e, k2),
{
    let r = kv_insert(e, k, v);
    match key_pos(e, k) {
        Some(i) => {
            assert(e[i].0 == k);
            assert forall|a: int, b: int| 0 <= a < b < r.len() implies #[trigger] r[a].0
                != #[trigger] r[b].0 by {
                assert(e[a].0 != e[b].0);
            }
            assert(r[i].0 == k);
            assert(key_pos(r, k) == Some(i));
            assert forall|k2: Seq<char>| k2 != k implies kv_lookup(r, k2) == kv_lookup(e, k2) by {
                if exists|j: int| 0 <= j < e.len() && #[trigger] e[j].0 == k2 {
                    let j = choose|j: int| 0 <= j < e.len() && #[trigger] e[j].0 == k2;
                    assert(r[j].0 == k2);
                    let jr = key_pos(r, k2)->0;
                    assert(r[jr].0 == k2);
                    assert(jr == j);
                } else {
                    assert forall|j: int| 0 <= j < r.len() implies #[trigger] r[j].0 != k2 by {
                        if j != i {
                            assert(r[j] == e[j]);
                        }
                    }
                }
            }
        },
        None => {
            assert forall|a: int, b: int| 0 <= a < b < r.len() implies #[trigger] r[a].0
                != #[trigger] r[b].0 by {
                if b < e.len() {
                    assert(e[a].0 != e[b].0);
                } else {
                    assert(r[a] == e[a]);
                }
            }
            let last = r.len() - 1;
            assert(r[last].0 == k);
            assert(key_pos(r, k) == Some(last));
            assert forall|k2: Seq<char>| k2 != k implies kv_lookup(r, k2) == kv_lookup(e, k2) by {
                if exists|j: int| 0 <= j < e.len() && #[trigger] e[j].0 == k2 {
                    let j = choose|j: int| 0 <= j < e.len() && #[trigger] e[j].0 == k2;
                    assert(r[j].0 == k2);
                    let jr = key_pos(r, k2)->0;
                    assert(r[jr].0 == k2);
                    assert(jr == j);
                } else {
                    assert forall|j: int| 0 <= j < r.len() implies #[trigger] r[j].0 != k2 by {
                        if j < e.len() {
                            assert(r[j] == e[j]);
                        }
                    }
                }
            }
        },
    }
}

/// Collected entries have unique keys.
pub proof fn lemma_kv_from_pairs_unique(pairs: Seq<Entry>)
    ensures
        unique_keys(kv_from_pairs(pairs)),
    decreases pairs.len(),
{
    if pairs.len() > 0 {
        lemma_kv_from_pairs_unique(pairs.drop_last());
        lemma_kv_insert_unique(kv_from_pairs(pairs.drop_last()), pairs.last().0, pairs.last().1);
    }
}

/// The value last paired with `k` among `pairs`.
pub open spec fn last_value(pairs: Seq<Entry>, k: Seq<char>) -> Option<Seq<char>>
    decreases pairs.len(),
{
    if pairs.len() == 0 {
        None
    } else if pairs.last().0 == k {
        Some(pairs.last().1)
    } else {
        last_value(pairs.drop_last(), k)
    }
}

/// Collecting pairs keeps, for each key, the value last given for it.
pub proof fn lemma_kv_from_pairs_lookup(pairs: Seq<Entry>, k: Seq<char>)
    ensures
        kv_lookup(kv_from_pairs(pairs), k) == last_value(pairs, k),
    decreases pairs.len(),
{
    if pairs.len() > 0 {
        let init = pairs.drop_last();
        lemma_kv_from_pairs_lookup(init, k);
        lemma_kv_from_pairs_unique(init);
        lemma_kv_insert_unique(kv_from_pairs(init), pairs.last().0, pairs.last().1);
    }
}

/// Parsed arguments hold each key once, with the value last given for it
/// among the `key=value` pairs read from the text.
pub proof fn lemma_parse_kv_args_last_value_wins(args: Seq<char>, k: Seq<char>)
    requires
        parse_kv_args_spec(args) is Some,
    ensures
        unique_keys(parse_kv_args_spec(args)->0),
        kv_lookup(parse_kv_args_spec(args)->0, k) == last_value(
            pair_up(kv_tokens(split_char(args, '='))),
            k,
        ),
{
    let pairs = pair_up(kv_tokens(split_char(args, '=')));
    lemma_kv_from_pairs_unique(pairs);
    lemma_kv_from_pairs_lookup(pairs, k);
}

/// Arguments are refused exactly when they hold no `=`.
pub proof fn lemma_parse_kv_args_needs_equals(args: Seq<char>)
    ensures
        parse_kv_args_spec(args) is None <==> !args.contains('='),
{
    lemma_split_char_pieces(args, '=');
}

/// `key=value` pairs written one after another, separated by single
/// spaces.
pub open spec fn kv_text(pairs: Seq<Entry>) -> Seq<char>
    decreases pairs.len(),
{
    if pairs.len() == 0 {
        Seq::empty()
    } else if pairs.len() == 1 {
        pairs[0].0 + seq!['='] + pairs[0].1
    } else {
        kv_text(pairs.drop_last()) + seq![' '] + pairs.last().0 + seq!['='] + pairs.last().1
    }
}

/// A pair that such a text holds plainly: a key that is not empty and has
/// no white space and no `=`, and a value without `=`.
pub open spec fn plain_pair(p: Entry) -> bool {
    &&& p.0.len() > 0
    &&& forall|i: int| 0 <= i < p.0.len() ==> !is_white_space(#[trigger] p.0[i]) && p.0[i] != '='
    &&& !p.1.contains('=')
}

/// The pieces such a text splits into at `=`: the first key, then each
/// value with a space and the next key, then the last value.
spec fn kv_frags(pairs: Seq<Entry>) -> Seq<Seq<char>>
    decreases pairs.len(),
{
    if pairs.len() <= 1 {
        seq![pairs[0].0, pairs[0].1]
    } else {
        let f = kv_frags(pairs.drop_last());
        f.update(f.len() - 1, f.last() + seq![' '] + pairs.last().0).push(pairs.last().1)
    }
}

/// The keys and values of the pairs, alternating.
spec fn kv_flat(pairs: Seq<Entry>) -> Seq<Seq<char>>
    decreases pairs.len(),
{
    if pairs.len() == 0 {
        Seq::empty()
    } else {
        kv_flat(pairs.drop_last()) + seq![pairs.last().0, pairs.last().1]
    }
}

proof fn lemma_no_equals_key(k: Seq<char>)
    requires
        forall|i: int| 0 <= i < k.len() ==> !is_white_space(#[trigger] k[i]) && k[i] != '=',
    ensures
        !k.contains('='),
        !(seq![' '] + k).contains('='),
{
    if (seq![' '] + k).contains('=') {
        let i = choose|i: int| 0 <= i < (seq![' '] + k).len() && (seq![' '] + k)[i] == '=';
        assert(i > 0);
        assert((seq![' '] + k)[i] == k[i - 1]);
    }
}

/// Such a text splits at `=` into the expected pieces.
proof fn lemma_kv_text_frags(pairs: Seq<Entry>)
    requires
        pairs.len() >= 1,
        forall|i: int| 0 <= i < pairs.len() ==> plain_pair(#[trigger] pairs[i]),
    ensures
        split_char(kv_text(pairs), '=') == kv_frags(pairs),
        kv_frags(pairs).len() == pairs.len() + 1,
    decreases pairs.len(),
{
    let k = pairs.last().0;
    let v = pairs.last().1;
    assert(plain_pair(pairs[pairs.len() - 1]));
    lemma_no_equals_key(k);
    let eq_v = seq!['='] + v;
    assert(split_char(eq_v, '=') == seq![Seq::<char>::empty()] + split_char(v, '=')) by {
        assert(eq_v[0] == '=');
        assert(eq_v.drop_first() =~= v);
    }
    lemma_split_char_whole(v, '=');
    assert(split_char(eq_v, '=') =~= seq![Seq::<char>::empty(), v]);
    if pairs.len() == 1 {
        lemma_split_char_whole(k, '=');
        lemma_split_char_concat(k, eq_v, '=');
        assert(kv_text(pairs) =~= k + eq_v);
        assert(k + Seq::<char>::empty() =~= k);
        assert(split_char(kv_text(pairs), '=') =~= seq![k, v]);
    } else {
        let init = pairs.drop_last();
        assert forall|i: int| 0 <= i < init.len() implies plain_pair(#[trigger] init[i]) by {
            assert(init[i] == pairs[i]);
        }
        lemma_kv_text_frags(init);
        let f = kv_frags(init);
        let sk = seq![' '] + k;
        lemma_split_char_whole(sk, '=');
        lemma_split_char_concat(sk, eq_v, '=');
        assert(sk + Seq::<char>::empty() =~= sk);
        let u = sk + eq_v;
        assert(split_char(u, '=') =~= seq![sk, v]);
        assert(kv_text(pairs) =~= kv_text(init) + u);
        lemma_split_char_concat(kv_text(init), u, '=');
        assert(f.last() + sk =~= f.last() + seq![' '] + k);
        assert(split_char(kv_text(pairs), '=') =~= f.update(f.len() - 1, f.last() + seq![' '] + k).push(v));
    }
}

/// The pieces of such a text, split further at the last space of each inner
/// piece, alternate keys and values.
proof fn lemma_kv_frags_tokens(pairs: Seq<Entry>)
    requires
        pairs.len() >= 1,
        forall|i: int| 0 <= i < pairs.len() ==> plain_pair(#[trigger] pairs[i]),
    ensures
        kv_frags(pairs).len() == pairs.len() + 1,
        kv_tokens(kv_frags(pairs)) == kv_flat(pairs),
    decreases pairs.len(),
{
    if pairs.len() == 1 {
        let f = kv_frags(pairs);
        assert(f.subrange(1, 1) =~= Seq::<Seq<char>>::empty());
        assert(pairs.drop_last() =~= Seq::<Entry>::empty());
        assert(kv_flat(pairs.drop_last()) =~= Seq::<Seq<char>>::empty());
        assert(pairs.last() == pairs[0]);
        assert(kv_flat(pairs) =~= seq![pairs[0].0, pairs[0].1]);
        assert(kv_tokens(f) =~= seq![pairs[0].0, pairs[0].1]);
    } else {
        let init = pairs.drop_last();
        assert forall|i: int| 0 <= i < init.len() implies plain_pair(#[trigger] init[i]) by {
            assert(init[i] == pairs[i]);
        }
        lemma_kv_frags_tokens(init);
        let k = pairs.last().0;
        let v = pairs.last().1;
        assert(plain_pair(pairs[pairs.len() - 1]));
        let g = kv_frags(init);
        let m = g.len();
        let x = g.last() + seq![' '] + k;
        let f = kv_frags(pairs);
        assert(f == g.update(m - 1, x).push(v));
        assert(f[0] == g[0]);
        assert(f.last() == v);
        assert(f.subrange(1, f.len() - 1) =~= g.subrange(1, m - 1).push(x));
        let mid = g.subrange(1, m - 1).push(x);
        assert(mid.drop_last() =~= g.subrange(1, m - 1));
        assert(mid.last() == x);
        // The last inner piece splits into the previous value and the key.
        assert forall|j: int| x.len() - k.len() <= j < x.len() implies CharClass::IsNot(' ').holds(
            #[trigger] x[j],
        ) by {
            assert(x[j] == k[j - (x.len() - k.len())]);
            assert(!is_white_space(k[j - (x.len() - k.len())]));
        }
        assert(x[x.len() - 1 - k.len()] == ' ');
        lemma_trail_count(x, CharClass::IsNot(' '), k.len() as int);
        assert(x.take(x.len() - k.len() - 1) =~= g.last());
        assert(x.skip(x.len() - k.len()) =~= k);
        assert(split_last_space(x) == seq![g.last(), k]);
        assert(kv_tokens(f) =~= kv_tokens(g) + seq![k, v]);
    }
}

/// The alternating keys and values, position by position.
proof fn lemma_kv_flat_index(pairs: Seq<Entry>)
    ensures
        kv_flat(pairs).len() == 2 * pairs.len(),
        forall|i: int|
            0 <= i < pairs.len() ==> kv_flat(pairs)[2 * i] == pairs[i].0 && kv_flat(pairs)[2 * i
                + 1] == pairs[i].1,
    decreases pairs.len(),
{
    if pairs.len() > 0 {
        let init = pairs.drop_last();
        lemma_kv_flat_index(init);
        assert forall|i: int| 0 <= i < pairs.len() implies kv_flat(pairs)[2 * i] == pairs[i].0
            && kv_flat(pairs)[2 * i + 1] == pairs[i].1 by {
            if i < init.len() {
                assert(init[i] == pairs[i]);
            }
        }
    }
}

/// Collecting pairs with different keys keeps them as they are.
proof fn lemma_kv_from_distinct_pairs(q: Seq<Entry>)
    requires
        unique_keys(q),
    ensures
        kv_from_pairs(q) == q,
    decreases q.len(),
{
    if q.len() > 0 {
        let init = q.drop_last();
        assert(unique_keys(init)) by {
            assert forall|i: int, j: int| 0 <= i < j < init.len() implies #[trigger] init[i].0
                != #[trigger] init[j].0 by {
                assert(init[i] == q[i] && init[j] == q[j]);
            }
        }
        lemma_kv_from_distinct_pairs(init);
        assert forall|j: int| 0 <= j < init.len() implies #[trigger] init[j].0 != q.last().0 by {
            assert(init[j] == q[j]);
        }
        assert(key_pos(init, q.last().0) is None);
        assert(init.push(q.last()) =~= q);
    }
}

/// Distinct `key=value` pairs written one after another, separated by
/// spaces, parse to exactly those pairs, in order, each value stripped of
/// surrounding double quotes.
pub proof fn lemma_parse_distinct_pairs(pairs: Seq<Entry>)
    requires
        pairs.len() >= 1,
        unique_keys(pairs),
        forall|i: int| 0 <= i < pairs.len() ==> plain_pair(#[trigger] pairs[i]),
    ensures
        parse_kv_args_spec(kv_text(pairs)) == Some(
            pairs.map_values(|p: Entry| (p.0, trim_quotes(p.1))),
        ),
{
    let q = pairs.map_values(|p: Entry| (p.0, trim_quotes(p.1)));
    lemma_kv_text_frags(pairs);
    lemma_kv_frags_tokens(pairs);
    lemma_kv_flat_index(pairs);
    let toks = kv_flat(pairs);
    assert(pair_up(toks) =~= q);
    assert(unique_keys(q)) by {
        assert forall|i: int, j: int| 0 <= i < j < q.len() implies #[trigger] q[i].0
            != #[trigger] q[j].0 by {
            assert(pairs[i].0 != pairs[j].0);
        }
    }
    lemma_kv_from_distinct_pairs(q);
}

impl KvArgs {
    #[verifier::type_invariant]
    spec fn keys_unique(self) -> bool {
        unique_keys(self@)
    }

    /// Position of `key` in the entries.
    fn find(&self, key: &[char]) -> (r: Option<usize>)
        ensures
            match r {
                Some(i) => i < self@.len() && key_pos(self@, key@) == Some(i as int),
                None => key_pos(self@, key@) is None,
            },
    {
        proof {
            use_type_invariant(self);
        }
        let mut i: usize = 0;
        while i < self.entries.len()
            invariant
                i <= self.entries.len(),
                unique_keys(self@),
                self@.len() == self.entries.len(),
                forall|j: int| 0 <= j < i ==> #[trigger] self@[j].0 != key@,
            decreases self.entries.len() - i,
        {
            let k = str_chars(self.entries[i].0.as_str());
            if crate::text::chars_eq(k.as_slice(), key) {
                assert(self@[i as int].0 == key@);
                proof {
                    let e = self@;
                    let c = choose|j: int| 0 <= j < e.len() && #[trigger] e[j].0 == key@;
                    assert(e[c].0 == key@);
                    assert(c == i);
                }
                return Some(i);
            }
            i = i + 1;
        }
        None
    }

    /// Stores `value` under `key`.
    fn insert(&mut self, key: String, value: String)
        ensures
            final(self)@ == kv_insert(old(self)@, key@, value@),
    {
        proof {
            use_type_invariant(&*self);
        }
        let kc = str_chars(key.as_str());
        let ghost before = self@;
        match self.find(kc.as_slice()) {
            Some(i) => {
                proof {
                    lemma_kv_insert_unique(before, key@, value@);
                }
                let mut entries: Vec<(String, String)> = Vec::new();
                std::mem::swap(&mut entries, &mut self.entries);
                entries.set(i, (key, value));
                assert(entries_view(entries@) =~= kv_insert(before, key@, value@));
                self.entries = entries;
            },
            None => {
                proof {
                    lemma_kv_insert_unique(before, key@, value@);
                }
                let mut entries: Vec<(String, String)> = Vec::new();
                std::mem::swap(&mut entries, &mut self.entries);
                entries.push((key, value));
                assert(entries_view(entries@) =~= kv_insert(before, key@, value@));
                self.entries = entries;
            },
        }
    }

    /// The number of keys.
    pub fn len(&self) -> (r: usize)
        ensures
            r == self@.len(),
    {
        self.entries.len()
    }

    /// Whether `key` is present.
    pub fn contains_key(&self, key: &str) -> (r: bool)
        ensures
            r == (kv_lookup(self@, key@) is Some),
    {
        let kc = str_chars(key);
        self.find(kc.as_slice()).is_some()
    }

    /// The value stored under `key`.
    pub fn get(&self, key: &str) -> (r: Option<String>)
        ensures
            opt_chars(r) == kv_lookup(self@, key@),
    {
        let kc = str_chars(key);
        match self.find(kc.as_slice()) {
            Some(i) => Some(self.entries[i].1.clone()),
            None => None,
        }
    }

    /// Takes out the value stored under `key`; the other entries stay, in
    /// order.
    pub fn remove(&mut self, key: &str) -> (r: Option<String>)
        ensures
            opt_chars(r) == kv_lookup(old(self)@, key@),
            final(self)@ == kv_remove(old(self)@, key@),
    {
        proof {
            use_type_invariant(&*self);
        }
        let kc = str_chars(key);
        let ghost before = self@;
        match self.find(kc.as_slice()) {
            Some(i) => {
                let mut entries: Vec<(String, String)> = Vec::new();
                std::mem::swap(&mut entries, &mut self.entries);
                let (_, v) = entries.remove(i);
                assert(entries_view(entries@) =~= before.remove(i as int));
                assert forall|a: int, b: int|
                    0 <= a < b < entries_view(entries@).len() implies #[trigger] entries_view(
                    entries@,
                )[a].0 != #[trigger] entries_view(entries@)[b].0 by {
                    let r = before.remove(i as int);
                    let a0 = if a < i { a } else { a + 1 };
                    let b0 = if b < i { b } else { b + 1 };
                    assert(r[a] == before[a0]);
                    assert(r[b] == before[b0]);
                }
                self.entries = entries;
                Some(v)
            },
            None => None,
        }
    }

    /// The keys and values, in order.
    pub fn to_pairs(&self) -> (r: Vec<(String, String)>)
        ensures
            entries_view(r@) == self@,
    {
        let mut r: Vec<(String, String)> = Vec::new();
        let mut i: usize = 0;
        while i < self.entries.len()
            invariant
                i <= self.entries.len(),
                r@.len() == i,
                entries_view(r@) == entries_view(self.entries@).take(i as int),
            decreases self.entries.len() - i,
        {
            let k = self.entries[i].0.clone();
            let v = self.entries[i].1.clone();
            let ghost before = r@;
            r.push((k, v));
            proof {
                let ev = entries_view(self.entries@);
                assert(r@ == before.push((k, v)));
                assert forall|j: int| 0 <= j < i + 1 implies #[trigger] entries_view(r@)[j]
                    == ev.take(i + 1)[j] by {
                    if j < i {
                        assert(r@[j] == before[j]);
                        assert(entries_view(before)[j] == ev.take(i as int)[j]);
                    } else {
                        assert(r@[j] == (k, v));
                        assert(ev[j] == (self.entries@[j].0@, self.entries@[j].1@));
                    }
                }
                assert(entries_view(r@) =~= ev.take(i + 1));
            }
            i = i + 1;
        }
        assert(entries_view(self.entries@).take(i as int) =~= entries_view(self.entries@));
        r
    }
}

/// The views of a list of character vectors.
pub open spec fn pieces_view(v: Seq<Vec<char>>) -> Seq<Seq<char>> {
    v.map_values(|x: Vec<char>| x@)
}

proof fn lemma_pieces_view_push(v: Seq<Vec<char>>, x: Vec<char>)
    ensures
        pieces_view(v.push(x)) == pieces_view(v).push(x@),
{
    assert(pieces_view(v.push(x)) =~= pieces_view(v).push(x@));
}

/// `str::split` on a character.
fn split_char_exec(s: &[char], c: char) -> (r: Vec<Vec<char>>)
    ensures
        pieces_view(r@) == split_char(s@, c),
{
    let mut pieces: Vec<Vec<char>> = Vec::new();
    let mut cur: Vec<char> = Vec::new();
    let mut i: usize = 0;
    proof {
        lemma_split_char_nonempty(s@, c);
        let x = split_char(s@, c);
        assert(Seq::<char>::empty() + x[0] =~= x[0]);
        assert(prepend_first(cur@, x) =~= x);
        assert(s@.skip(0) =~= s@);
        assert(pieces_view(pieces@) =~= Seq::<Seq<char>>::empty());
        assert(pieces_view(pieces@) + prepend_first(cur@, x) =~= x);
    }
    while i < s.len()
        invariant
            i <= s.len(),
            split_char(s@, c) == pieces_view(pieces@) + prepend_first(
                cur@,
                split_char(s@.skip(i as int), c),
            ),
        decreases s.len() - i,
    {
        let ch = s[i];
        let ghost t = s@.skip(i as int);
        let ghost rest = split_char(s@.skip(i + 1), c);
        proof {
            lemma_split_char_nonempty(s@.skip(i + 1), c);
            assert(t.drop_first() =~= s@.skip(i + 1));
            assert(t[0] == ch);
        }
        let ghost old_pieces = pieces_view(pieces@);
        let ghost old_raw = pieces@;
        let ghost old_cur = cur@;
        if ch == c {
            let done = cur;
            cur = Vec::new();
            pieces.push(done);
            proof {
                lemma_pieces_view_push(old_raw, done);
                assert(split_char(t, c) == seq![Seq::<char>::empty()] + rest);
                assert(prepend_first(old_cur, split_char(t, c)) =~= seq![old_cur] + rest);
                assert(Seq::<char>::empty() + rest[0] =~= rest[0]);
                assert(prepend_first(cur@, rest) =~= rest);
                assert(old_pieces + prepend_first(old_cur, split_char(t, c)) =~= pieces_view(
                    pieces@,
                ) + prepend_first(cur@, rest));
            }
        } else {
            cur.push(ch);
            proof {
                assert(split_char(t, c) == rest.update(0, seq![ch] + rest[0]));
                assert(old_cur + (seq![ch] + rest[0]) =~= cur@ + rest[0]);
                assert(prepend_first(old_cur, split_char(t, c)) =~= prepend_first(cur@, rest));
            }
        }
        i = i + 1;
    }
    proof {
        assert(s@.skip(i as int) =~= Seq::<char>::empty());
        let x = split_char(Seq::<char>::empty(), c);
        assert(x == seq![Seq::<char>::empty()]);
        assert(prepend_first(cur@, x) =~= seq![cur@]);
    }
    let ghost before = pieces@;
    pieces.push(cur);
    proof {
        lemma_pieces_view_push(before, cur);
    }
    pieces
}

/// `x.rsplitn(2, ' ')` in reverse order.
fn split_last_space_exec(x: &[char]) -> (r: Vec<Vec<char>>)
    ensures
        pieces_view(r@) == split_last_space(x@),
{
    let k = trail_len(x, &CharClass::IsNot(' '));
    if k >= x.len() {
        let r = vec![to_vec(x)];
        assert(pieces_view(r@) =~= seq![x@]);
        r
    } else {
        let cut = x.len() - k;
        let a = to_vec(&x[0..cut - 1]);
        let b = to_vec(&x[cut..x.len()]);
        let r = vec![a, b];
        assert(x@.subrange(0, cut - 1) =~= x@.take(x@.len() - k - 1));
        assert(x@.subrange(cut as int, x@.len() as int) =~= x@.skip(x@.len() - k));
        assert(pieces_view(r@) =~= seq![a@, b@]);
        r
    }
}

/// A value without its surrounding double quotes.
fn trim_quotes_exec(v: &[char]) -> (r: String)
    ensures
        r@ == trim_quotes(v@),
{
    let l = lead_len(v, &CharClass::Is('"'));
    let rest = &v[l..v.len()];
    assert(rest@ == skip_class(v@, CharClass::Is('"')));
    let t = trail_len(rest, &CharClass::Is('"'));
    let core = &rest[0..rest.len() - t];
    assert(core@ == drop_trailing_class(rest@, CharClass::Is('"')));
    chars_to_string(core)
}

impl KvArgs {
    fn empty() -> (r: KvArgs)
        ensures
            r@ == Seq::<Entry>::empty(),
    {
        let r = KvArgs { entries: Vec::new() };
        assert(r@ =~= Seq::<Entry>::empty());
        r
    }
}

/// Parses `key=value` arguments, where a value may hold spaces (up to the
/// space before the next key) and may be put in double quotes:
/// `min_fireteam_size=1 name="Last Wish, Enhanced"`. `None` where there is
/// no `=` at all. A key given twice keeps its last value.
pub fn parse_kv_args(args: &str) -> (r: Option<KvArgs>)
    ensures
        match r {
            Some(kv) => parse_kv_args_spec(args@) == Some(kv@),
            None => parse_kv_args_spec(args@) is None,
        },
{
    let chars = str_chars(args);
    let frags = split_char_exec(chars.as_slice(), '=');
    let ghost fv = pieces_view(frags@);
    if frags.len() < 2 {
        return None;
    }
    let last = frags.len() - 1;
    let mut toks: Vec<Vec<char>> = Vec::new();
    toks.push(to_vec(frags[0].as_slice()));
    let mut i: usize = 1;
    proof {
        assert(fv.subrange(1, 1) =~= Seq::<Seq<char>>::empty());
        assert(pieces_view(toks@) =~= seq![fv[0]]);
        assert(fv[0] == frags@[0]@);
    }
    while i < last
        invariant
            1 <= i <= last,
            last == frags.len() - 1,
            fv == pieces_view(frags@),
            fv.len() == frags.len(),
            pieces_view(toks@) == seq![fv[0]] + split_fragments(fv.subrange(1, i as int)),
        decreases last - i,
    {
        let mut more = split_last_space_exec(frags[i].as_slice());
        let ghost before = toks@;
        let ghost more_v = more@;
        toks.append(&mut more);
        proof {
            assert(pieces_view(toks@) =~= pieces_view(before) + pieces_view(more_v));
            let sub = fv.subrange(1, i + 1);
            assert(sub.drop_last() =~= fv.subrange(1, i as int));
            assert(sub.last() == fv[i as int]);
            assert(fv[i as int] == frags@[i as int]@);
        }
        i = i + 1;
    }
    let ghost before_last = toks@;
    toks.push(to_vec(frags[last].as_slice()));
    proof {
        lemma_pieces_view_push(before_last, toks@.last());
        assert(fv.last() == frags@[last as int]@);
        assert(pieces_view(toks@) =~= kv_tokens(fv));
    }
    let ghost tv = pieces_view(toks@);
    let ghost pairs = pair_up(tv);
    let mut kv = KvArgs::empty();
    let n = toks.len() / 2;
    let mut j: usize = 0;
    proof {
        assert(pairs.take(0) =~= Seq::<Entry>::empty());
    }
    while j < n
        invariant
            j <= n,
            n == toks.len() / 2,
            tv == pieces_view(toks@),
            tv.len() == toks.len(),
            pairs == pair_up(tv),
            kv@ == kv_from_pairs(pairs.take(j as int)),
        decreases n - j,
    {
        let key = chars_to_string(toks[2 * j].as_slice());
        let value = trim_quotes_exec(toks[2 * j + 1].as_slice());
        proof {
            assert(tv[2 * j as int] == toks@[2 * j as int]@);
            assert(tv[2 * j + 1] == toks@[2 * j + 1]@);
            assert(pairs[j as int] == (key@, value@));
            assert(pairs.take(j + 1).drop_last() =~= pairs.take(j as int));
            assert(pairs.take(j + 1).last() == pairs[j as int]);
        }
        kv.insert(key, value);
        j = j + 1;
    }
    assert(pairs.take(n as int) =~= pairs);
    Some(kv)
}

} // verus!
