//! What the commands have in common: how their arguments are split, who is
//! asking (a registered guardian, an admin), how a guardian named in a
//! command is looked up, and the activity id that several commands take.

use vstd::prelude::*;
use crate::matching::opt_chars;
use crate::models::{Guardian, guardian_name_text};
use crate::numbers::{decimal, i64_decimal, parse_i32, parse_i32_spec};
use crate::text::{
    CharClass, chars_to_string, extend_chars, lead_count, lead_len, push_str, str_chars, to_vec,
};

verus! {

// ---------------------------------------------------------------------------
// Argument splitting
// ---------------------------------------------------------------------------

/// `str::splitn(n, c)`: at most `n` pieces, the last holding the rest.
pub open spec fn splitn_char(s: Seq<char>, n: nat, c: char) -> Seq<Seq<char>>
    decreases n,
{
    let k = lead_count(s, CharClass::IsNot(c)) as int;
    if n <= 1 || k >= s.len() {
        seq![s]
    } else {
        seq![s.take(k)] + splitn_char(s.skip(k + 1), (n - 1) as nat, c)
    }
}

/// The views of a list of strings.
pub open spec fn strings_view(v: Seq<String>) -> Seq<Seq<char>> {
    v.map_values(|s: String| s@)
}

proof fn lemma_strings_view_push(v: Seq<String>, s: String)
    ensures
        strings_view(v.push(s)) == strings_view(v).push(s@),
{
    assert(strings_view(v.push(s)) =~= strings_view(v).push(s@));
}

/// Splits `s` at the first `n - 1` occurrences of `c` (`str::splitn`).
pub fn splitn(s: &str, n: usize, c: char) -> (r: Vec<String>)
    requires
        n >= 1,
    ensures
        strings_view(r@) == splitn_char(s@, n as nat, c),
        r@.len() >= 1,
{
    let cs = str_chars(s);
    let mut out: Vec<String> = Vec::new();
    let mut start: usize = 0;
    let mut left: usize = n;
    assert(s@.skip(0) =~= s@);
    proof {
        assert(strings_view(out@) =~= Seq::<Seq<char>>::empty());
    }
    loop
        invariant_except_break
            1 <= left <= n,
            splitn_char(s@, n as nat, c) == strings_view(out@) + splitn_char(
                s@.skip(start as int),
                left as nat,
                c,
            ),
            out@.len() + left == n,
        invariant
            start <= cs.len(),
            cs@ == s@,
        ensures
            strings_view(out@) == splitn_char(s@, n as nat, c),
            out@.len() >= 1,
        decreases left,
    {
        let rest = &cs.as_slice()[start..cs.len()];
        assert(rest@ == s@.skip(start as int));
        let k = lead_len(rest, &CharClass::IsNot(c));
        let ghost before = out@;
        if left <= 1 || k >= rest.len() {
            let piece = chars_to_string(rest);
            out.push(piece);
            proof {
                lemma_strings_view_push(before, piece);
                assert(splitn_char(rest@, left as nat, c) == seq![rest@]);
                assert(strings_view(out@) =~= strings_view(before) + seq![rest@]);
            }
            break;
        }
        let piece = chars_to_string(&rest[0..k]);
        out.push(piece);
        proof {
            lemma_strings_view_push(before, piece);
            assert(rest@.subrange(0, k as int) =~= rest@.take(k as int));
            assert(rest@.skip(k + 1) =~= s@.skip(start + k + 1));
            assert(strings_view(out@) =~= strings_view(before) + seq![rest@.take(k as int)]);
        }
        start = start + k + 1;
        left = left - 1;
    }
    out
}

// ---------------------------------------------------------------------------
// Who is asking
// ---------------------------------------------------------------------------

/// Reply to a sender without a Telegram username.
pub open spec fn no_username_text() -> Seq<char> {
    "❌ You have no telegram username, register your telegram account first."@
}

/// Reply to a sender who has not linked a PSN account.
pub open spec fn not_linked_text() -> Seq<char> {
    "❌ You need to link your PSN account first: use /psn command"@
}

/// Reply where looking up the sender failed.
pub open spec fn lookup_failed_text(error: Seq<char>) -> Seq<char> {
    "❌ Error querying guardian info. "@ + error
}

/// Reply to a sender without a Telegram username.
pub fn no_username_reply() -> (r: String)
    ensures
        r@ == no_username_text(),
{
    "❌ You have no telegram username, register your telegram account first.".to_owned()
}

/// Reply to a sender who is not an admin.
pub fn not_admin_reply() -> (r: String)
    ensures
        r@ == "❌ You are not admin"@,
{
    "❌ You are not admin".to_owned()
}

/// The reply to `/chatid`: the chat's numeric id.
pub fn chat_id_reply(chat_id: i64) -> (r: String)
    ensures
        r@ == "✅ Current chat id: "@ + decimal(chat_id as int),
{
    let mut v: Vec<char> = Vec::new();
    push_str(&mut v, "✅ Current chat id: ");
    extend_chars(&mut v, i64_decimal(chat_id).as_slice());
    chars_to_string(v.as_slice())
}

/// The sender's guardian record, from looking it up by Telegram name:
/// `Ok(Some(g))` gives `g`; a missing record or a failed query (with its
/// message) gives the reply to send instead.
pub fn validate_username(lookup: Result<Option<Guardian>, String>) -> (r: Result<Guardian, String>)
    ensures
        match lookup {
            Ok(Some(g)) => r == Ok::<Guardian, String>(g),
            Ok(None) => r matches Err(t) && t@ == not_linked_text(),
            Err(e) => r matches Err(t) && t@ == lookup_failed_text(e@),
        },
{
    match lookup {
        Ok(Some(g)) => Ok(g),
        Ok(None) => Err("❌ You need to link your PSN account first: use /psn command".to_owned()),
        Err(e) => {
            let mut v: Vec<char> = Vec::new();
            push_str(&mut v, "❌ Error querying guardian info. ");
            push_str(&mut v, e.as_str());
            Err(chars_to_string(v.as_slice()))
        },
    }
}

/// A registered sender counts as an admin only with the admin flag set.
pub fn admin_check(guardian: Option<Guardian>) -> (r: Option<Guardian>)
    ensures
        match guardian {
            Some(g) => if g.is_admin {
                r == Some(g)
            } else {
                r is None
            },
            None => r is None,
        },
{
    match guardian {
        Some(g) => if g.is_admin {
            Some(g)
        } else {
            None
        },
        None => None,
    }
}

/// How a guardian named in a command is looked up.
pub enum GuardianQuery {
    /// By exact Telegram name (the name was given with a leading `@`).
    ByTelegramName(String),
    /// By PSN names containing the text.
    ByPsnNameContaining(String),
}

/// `@name` looks up a Telegram name, anything else a part of a PSN name.
pub fn guardian_lookup(name: &str) -> (r: GuardianQuery)
    ensures
        match r {
            GuardianQuery::ByTelegramName(t) => name@.len() > 0 && name@[0] == '@' && t@
                == name@.drop_first(),
            GuardianQuery::ByPsnNameContaining(t) => !(name@.len() > 0 && name@[0] == '@') && t@
                == name@,
        },
{
    let cs = str_chars(name);
    if cs.len() > 0 && cs[0] == '@' {
        let rest = &cs.as_slice()[1..cs.len()];
        assert(rest@ == name@.drop_first());
        GuardianQuery::ByTelegramName(chars_to_string(rest))
    } else {
        GuardianQuery::ByPsnNameContaining(name.to_owned())
    }
}

/// The activity id in a command's arguments (`/join 12`, `/cancel12`):
/// `None` (and the usage is shown) where there are no arguments or they are
/// not a number.
pub open spec fn activity_id_spec(args: Option<Seq<char>>) -> Option<i32> {
    match args {
        Some(a) => parse_i32_spec(a),
        None => None,
    }
}

/// The activity id in a command's arguments.
pub fn activity_id_argument(args: &Option<String>) -> (r: Option<i32>)
    ensures
        r == activity_id_spec(opt_chars(*args)),
{
    match args {
        Some(a) => {
            let cs = str_chars(a.as_str());
            parse_i32(cs.as_slice())
        },
        None => None,
    }
}

} // verus!
