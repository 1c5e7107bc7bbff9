//! Joining, leaving and creating groups (`/join`, `/cancel`, `/lfg`).

use vstd::prelude::*;
use crate::commands::{splitn, splitn_char, strings_view};
use crate::matching::opt_chars;
use crate::commands::activity_id_spec;
use crate::matching::{command_arguments, first_token, match_command_spec, token_command};
use crate::models::{PlannedActivity, cancel_link_text, join_link_text};
use crate::numbers::{
    all_digits, decimal, i64_decimal, is_ascii_digit, lemma_nat_digits_are_digits,
    lemma_parse_decimal_roundtrip, nat_digits,
};
use crate::text::{
    CharClass, char_is_numeric, chars_to_string, drop_trailing_class, extend_chars, is_white_space,
    lead_count, lemma_lead_count, lemma_skip_bytes_concat, lemma_trail_count, push_str, skip_class,
    strip_repeated, take_class, trail_count, trim, trim_start,
};

verus! {

/// Seconds in an hour: activities that started longer ago are in the past.
pub const HOUR_SECONDS: i64 = 3600;

/// An activity that started more than an hour before `now` is over: it can
/// no longer be joined or left.
pub open spec fn activity_is_past(start: int, now: int) -> bool {
    start < now - HOUR_SECONDS
}

/// Whether an activity starting at `start` is over at `now`.
pub fn is_past_activity(start: i64, now: i64) -> (r: bool)
    ensures
        r == activity_is_past(start as int, now as int),
{
    (start as i128) < (now as i128) - 3600
}

/// `"❌ Activity {id} was not found."`
pub open spec fn activity_not_found_text(id: i32) -> Seq<char> {
    "❌ Activity "@ + decimal(id as int) + " was not found."@
}

/// `"❌ Activity {id} was not found."`
pub fn activity_not_found_reply(id: i32) -> (r: String)
    ensures
        r@ == activity_not_found_text(id),
{
    let mut v: Vec<char> = Vec::new();
    push_str(&mut v, "❌ Activity ");
    extend_chars(&mut v, i64_decimal(id as i64).as_slice());
    push_str(&mut v, " was not found.");
    chars_to_string(v.as_slice())
}

// ---------------------------------------------------------------------------
// Joining
// ---------------------------------------------------------------------------

/// What is known so far while a guardian joins a planned activity. `None`
/// marks what has not been looked up (or done) yet.
pub struct JoinFacts {
    /// The planned activity named in the command.
    pub activity_id: i32,
    /// The registered sender.
    pub guardian_id: i32,
    /// The current time.
    pub now: i64,
    /// The planned activity, or `Some(None)` where there is none.
    pub planned: Option<Option<PlannedActivity>>,
    /// Whether the sender already is a member.
    pub already_member: Option<bool>,
    /// The number of members and the activity's maximum fireteam size.
    pub fireteam: Option<(usize, i32)>,
    /// Whether storing the new membership succeeded.
    pub saved: Option<bool>,
}

/// Why a guardian cannot join.
#[derive(PartialEq, Eq, Structural)]
pub enum JoinRefusal {
    NotFound(i32),
    AlreadyMember,
    Full,
    Past,
    SaveFailed,
}

/// The next step in joining.
#[derive(PartialEq, Eq, Structural)]
pub enum JoinStep {
    /// Look up the planned activity.
    LookUpActivity(i32),
    /// Find out whether the guardian is a member of it.
    LookUpMembership { planned_activity_id: i32, user_id: i32 },
    /// Count its members and look up its activity's maximum fireteam size.
    CountFireteam(i32),
    /// Store the membership.
    AddMember { planned_activity_id: i32, user_id: i32, added: i64 },
    /// Refuse, replying why.
    Refuse(JoinRefusal),
    /// Done: announce the new member.
    Joined { planned_activity_id: i32, activity_id: i32 },
}

/// The next step in joining, given what is known: look up the activity,
/// refuse where it does not exist, look up the membership, refuse a member,
/// count the fireteam, refuse where it is full, refuse a past activity,
/// store the membership, and announce it unless storing failed.
pub open spec fn join_step_spec(f: JoinFacts) -> JoinStep {
    match f.planned {
        None => JoinStep::LookUpActivity(f.activity_id),
        Some(None) => JoinStep::Refuse(JoinRefusal::NotFound(f.activity_id)),
        Some(Some(p)) => match f.already_member {
            None => JoinStep::LookUpMembership {
                planned_activity_id: f.activity_id,
                user_id: f.guardian_id,
            },
            Some(true) => JoinStep::Refuse(JoinRefusal::AlreadyMember),
            Some(false) => match f.fireteam {
                None => JoinStep::CountFireteam(p.id),
                Some((members, max_size)) => if crate::models::fireteam_is_full(
                    members as nat,
                    max_size,
                ) {
                    JoinStep::Refuse(JoinRefusal::Full)
                } else if activity_is_past(p.start as int, f.now as int) {
                    JoinStep::Refuse(JoinRefusal::Past)
                } else {
                    match f.saved {
                        None => JoinStep::AddMember {
                            planned_activity_id: p.id,
                            user_id: f.guardian_id,
                            added: f.now,
                        },
                        Some(false) => JoinStep::Refuse(JoinRefusal::SaveFailed),
                        Some(true) => JoinStep::Joined {
                            planned_activity_id: p.id,
                            activity_id: p.activity_id,
                        },
                    }
                },
            },
        },
    }
}

/// The next step in joining.
pub fn join_step(f: &JoinFacts) -> (r: JoinStep)
    ensures
        r == join_step_spec(*f),
{
    match &f.planned {
        None => JoinStep::LookUpActivity(f.activity_id),
        Some(None) => JoinStep::Refuse(JoinRefusal::NotFound(f.activity_id)),
        Some(Some(p)) => match f.already_member {
            None => JoinStep::LookUpMembership {
                planned_activity_id: f.activity_id,
                user_id: f.guardian_id,
            },
            Some(true) => JoinStep::Refuse(JoinRefusal::AlreadyMember),
            Some(false) => match f.fireteam {
                None => JoinStep::CountFireteam(p.id),
                Some((members, max_size)) => if members >= max_size as usize {
                    JoinStep::Refuse(JoinRefusal::Full)
                } else if is_past_activity(p.start, f.now) {
                    JoinStep::Refuse(JoinRefusal::Past)
                } else {
                    match f.saved {
                        None => JoinStep::AddMember {
                            planned_activity_id: p.id,
                            user_id: f.guardian_id,
                            added: f.now,
                        },
                        Some(false) => JoinStep::Refuse(JoinRefusal::SaveFailed),
                        Some(true) => JoinStep::Joined {
                            planned_activity_id: p.id,
                            activity_id: p.activity_id,
                        },
                    }
                },
            },
        },
    }
}

/// The reply to a refused join.
pub open spec fn join_refusal_text(r: JoinRefusal) -> Seq<char> {
    match r {
        JoinRefusal::NotFound(id) => activity_not_found_text(id),
        JoinRefusal::AlreadyMember => "✅ You are already part of this group."@,
        JoinRefusal::Full => "❌ This activity group is full."@,
        JoinRefusal::Past => "❌ You can not join past activities."@,
        JoinRefusal::SaveFailed => "🐛 Unexpected error saving group joiner"@,
    }
}

impl JoinRefusal {
    /// The reply to a refused join.
    pub fn text(&self) -> (r: String)
        ensures
            r@ == join_refusal_text(*self),
    {
        match self {
            JoinRefusal::NotFound(id) => activity_not_found_reply(*id),
            JoinRefusal::AlreadyMember => "✅ You are already part of this group.".to_owned(),
            JoinRefusal::Full => "❌ This activity group is full.".to_owned(),
            JoinRefusal::Past => "❌ You can not join past activities.".to_owned(),
            JoinRefusal::SaveFailed => "🐛 Unexpected error saving group joiner".to_owned(),
        }
    }
}

/// How the announcement of a new member names the activity.
pub open spec fn joined_activity_label(activity_id: i32) -> Seq<char> {
    "Activity "@ + decimal(activity_id as int)
}

/// How the announcement of a new member names the activity.
pub fn joined_activity_name(activity_id: i32) -> (r: String)
    ensures
        r@ == joined_activity_label(activity_id),
{
    let mut v: Vec<char> = Vec::new();
    push_str(&mut v, "Activity ");
    extend_chars(&mut v, i64_decimal(activity_id as i64).as_slice());
    chars_to_string(v.as_slice())
}

// ---------------------------------------------------------------------------
// Leaving
// ---------------------------------------------------------------------------

/// What is known so far while a guardian leaves a planned activity. `None`
/// marks what has not been looked up (or done) yet.
pub struct CancelFacts {
    pub activity_id: i32,
    pub guardian_id: i32,
    pub now: i64,
    /// The planned activity, or `Some(None)` where there is none.
    pub planned: Option<Option<PlannedActivity>>,
    /// The guardian's membership record, or `Some(None)` where there is none.
    pub membership: Option<Option<i32>>,
    /// Whether removing the membership succeeded.
    pub removed: Option<bool>,
    /// How many members remain.
    pub remaining: Option<usize>,
    /// Whether removing the emptied planned activity succeeded.
    pub disbanded: Option<bool>,
}

/// Why a guardian cannot leave.
#[derive(PartialEq, Eq, Structural)]
pub enum CancelRefusal {
    NotFound(i32),
    NotMember,
    Past,
    RemoveMemberFailed,
    RemoveActivityFailed,
}

/// The next step in leaving.
#[derive(PartialEq, Eq, Structural)]
pub enum CancelStep {
    LookUpActivity(i32),
    LookUpMembership { planned_activity_id: i32, user_id: i32 },
    /// Remove the membership record.
    RemoveMember(i32),
    /// Count the members left.
    CountRemaining(i32),
    /// Remove the planned activity, which has no members left.
    RemoveActivity(i32),
    Refuse(CancelRefusal),
    /// Done: announce the departure; `disbanded` where the group is gone.
    Left { planned_activity_id: i32, disbanded: bool },
}

/// The next step in leaving, given what is known: look up the activity and
/// the membership (refusing where either is missing), refuse a past
/// activity, remove the membership, and where nobody is left remove the
/// activity too.
pub open spec fn cancel_step_spec(f: CancelFacts) -> CancelStep {
    match f.planned {
        None => CancelStep::LookUpActivity(f.activity_id),
        Some(None) => CancelStep::Refuse(CancelRefusal::NotFound(f.activity_id)),
        Some(Some(p)) => match f.membership {
            None => CancelStep::LookUpMembership {
                planned_activity_id: f.activity_id,
                user_id: f.guardian_id,
            },
            Some(None) => CancelStep::Refuse(CancelRefusal::NotMember),
            Some(Some(member_id)) => if activity_is_past(p.start as int, f.now as int) {
                CancelStep::Refuse(CancelRefusal::Past)
            } else {
                match f.removed {
                    None => CancelStep::RemoveMember(member_id),
                    Some(false) => CancelStep::Refuse(CancelRefusal::RemoveMemberFailed),
                    Some(true) => match f.remaining {
                        None => CancelStep::CountRemaining(p.id),
                        Some(n) => if n == 0 {
                            match f.disbanded {
                                None => CancelStep::RemoveActivity(f.activity_id),
                                Some(false) => CancelStep::Refuse(
                                    CancelRefusal::RemoveActivityFailed,
                                ),
                                Some(true) => CancelStep::Left {
                                    planned_activity_id: p.id,
                                    disbanded: true,
                                },
                            }
                        } else {
                            CancelStep::Left { planned_activity_id: p.id, disbanded: false }
                        },
                    },
                }
            },
        },
    }
}

/// The next step in leaving.
pub fn cancel_step(f: &CancelFacts) -> (r: CancelStep)
    ensures
        r == cancel_step_spec(*f),
{
    match &f.planned {
        None => CancelStep::LookUpActivity(f.activity_id),
        Some(None) => CancelStep::Refuse(CancelRefusal::NotFound(f.activity_id)),
        Some(Some(p)) => match f.membership {
            None => CancelStep::LookUpMembership {
                planned_activity_id: f.activity_id,
                user_id: f.guardian_id,
            },
            Some(None) => CancelStep::Refuse(CancelRefusal::NotMember),
            Some(Some(member_id)) => if is_past_activity(p.start, f.now) {
                CancelStep::Refuse(CancelRefusal::Past)
            } else {
                match f.removed {
                    None => CancelStep::RemoveMember(member_id),
                    Some(false) => CancelStep::Refuse(CancelRefusal::RemoveMemberFailed),
                    Some(true) => match f.remaining {
                        None => CancelStep::CountRemaining(p.id),
                        Some(n) => if n == 0 {
                            match f.disbanded {
                                None => CancelStep::RemoveActivity(f.activity_id),
                                Some(false) => CancelStep::Refuse(
                                    CancelRefusal::RemoveActivityFailed,
                                ),
                                Some(true) => CancelStep::Left {
                                    planned_activity_id: p.id,
                                    disbanded: true,
                                },
                            }
                        } else {
                            CancelStep::Left { planned_activity_id: p.id, disbanded: false }
                        },
                    },
                }
            },
        },
    }
}

/// The reply to a refused departure.
pub open spec fn cancel_refusal_text(r: CancelRefusal) -> Seq<char> {
    match r {
        CancelRefusal::NotFound(id) => activity_not_found_text(id),
        CancelRefusal::NotMember => "❌ You are not a part of this group."@,
        CancelRefusal::Past => "❌ You can not leave activities from the past."@,
        CancelRefusal::RemoveMemberFailed => "❌ Failed to remove group member"@,
        CancelRefusal::RemoveActivityFailed => "❌ Failed to remove planned activity"@,
    }
}

impl CancelRefusal {
    /// The reply to a refused departure.
    pub fn text(&self) -> (r: String)
        ensures
            r@ == cancel_refusal_text(*self),
    {
        match self {
            CancelRefusal::NotFound(id) => activity_not_found_reply(*id),
            CancelRefusal::NotMember => "❌ You are not a part of this group.".to_owned(),
            CancelRefusal::Past => "❌ You can not leave activities from the past.".to_owned(),
            CancelRefusal::RemoveMemberFailed => "❌ Failed to remove group member".to_owned(),
            CancelRefusal::RemoveActivityFailed => "❌ Failed to remove planned activity".to_owned(),
        }
    }
}

/// The end of a departure notice for a group that still has members: who is
/// going, then the join prompt.
pub open spec fn still_going_text(members: Seq<char>, join_prompt: Seq<char>) -> Seq<char> {
    members + " are going\n"@ + join_prompt
}

/// The end of a departure notice for a group that still has members.
pub fn still_going(members: &str, join_prompt: &str) -> (r: String)
    ensures
        r@ == still_going_text(members@, join_prompt@),
{
    let mut v: Vec<char> = Vec::new();
    push_str(&mut v, members);
    push_str(&mut v, " are going\n");
    push_str(&mut v, join_prompt);
    chars_to_string(v.as_slice())
}

// ---------------------------------------------------------------------------
// Creating a group
// ---------------------------------------------------------------------------

/// `/lfg` arguments: an activity shortcut and, after the first space, the
/// start time as the user wrote it. `None` (and the usage is shown) where
/// either is missing.
pub open spec fn lfg_arguments_spec(args: Option<Seq<char>>) -> Option<(Seq<char>, Seq<char>)> {
    match args {
        None => None,
        Some(a) => {
            let parts = splitn_char(a, 2, ' ');
            if parts.len() != 2 {
                None
            } else {
                Some((parts[0], parts[1]))
            }
        },
    }
}

/// `/lfg` arguments: the activity shortcut and the start time text.
pub fn lfg_arguments(args: &Option<String>) -> (r: Option<(String, String)>)
    ensures
        match r {
            Some((a, t)) => lfg_arguments_spec(opt_chars(*args)) == Some((a@, t@)),
            None => lfg_arguments_spec(opt_chars(*args)) is None,
        },
{
    match args {
        None => None,
        Some(a) => {
            let parts = splitn(a.as_str(), 2, ' ');
            if parts.len() != 2 {
                None
            } else {
                assert(strings_view(parts@)[0] == parts@[0]@);
                assert(strings_view(parts@)[1] == parts@[1]@);
                Some((parts[0].clone(), parts[1].clone()))
            }
        },
    }
}

/// Reply where the shortcut names no activity.
pub open spec fn unknown_shortcut_text(shortcut: Seq<char>) -> Seq<char> {
    "❌ Activity "@ + shortcut + " was not found. Use /activities to see the list."@
}

/// Reply where the shortcut names no activity.
pub fn unknown_shortcut_reply(shortcut: &str) -> (r: String)
    ensures
        r@ == unknown_shortcut_text(shortcut@),
{
    let mut v: Vec<char> = Vec::new();
    push_str(&mut v, "❌ Activity ");
    push_str(&mut v, shortcut);
    push_str(&mut v, " was not found. Use /activities to see the list.");
    chars_to_string(v.as_slice())
}

/// Reply where the start time cannot be read.
pub open spec fn bad_time_text(timespec: Seq<char>) -> Seq<char> {
    "❌ Failed to parse time "@ + timespec
}

/// Reply where the start time cannot be read.
pub fn bad_time_reply(timespec: &str) -> (r: String)
    ensures
        r@ == bad_time_text(timespec@),
{
    let mut v: Vec<char> = Vec::new();
    push_str(&mut v, "❌ Failed to parse time ");
    push_str(&mut v, timespec);
    chars_to_string(v.as_slice())
}

// ---------------------------------------------------------------------------
// Join and leave links
// ---------------------------------------------------------------------------

/// A command name that a link can be glued to: not empty, without white
/// space or `@`, and not ending in a digit.
pub open spec fn gluable_command(c: Seq<char>) -> bool {
    &&& c.len() > 0
    &&& forall|i: int| 0 <= i < c.len() ==> !is_white_space(#[trigger] c[i]) && c[i] != '@'
    &&& !char_is_numeric(c.last())
}

/// A command with the digits of a number glued to it is recognised as that
/// command, with the digits as its arguments (whatever the bot's name).
pub proof fn lemma_glued_command(c: Seq<char>, n: nat, bot_name: Seq<char>)
    requires
        gluable_command(c),
    ensures
        match_command_spec(Some(c + nat_digits(n)), c, bot_name) == (
            Some(c),
            Some(nat_digits(n)),
        ),
{
    let d = nat_digits(n);
    lemma_nat_digits_are_digits(n);
    let s = c + d;
    assert forall|j: int| 0 <= j < d.len() implies !is_white_space(#[trigger] d[j]) && d[j] != '@'
        && char_is_numeric(d[j]) by {
        assert(is_ascii_digit(d[j]));
    }
    assert forall|j: int| 0 <= j < s.len() implies !is_white_space(#[trigger] s[j]) && s[j] != '@' by {
        if j < c.len() {
            assert(s[j] == c[j]);
        } else {
            assert(s[j] == d[j - c.len()]);
        }
    }
    // The text starts with its first (and only) token.
    assert(s[0] == c[0]);
    assert(lead_count(s, CharClass::Whitespace) == 0);
    assert(s.skip(0) =~= s);
    assert(trim_start(s) == s);
    lemma_lead_count(s, CharClass::NotWhitespace, s.len() as int);
    assert(s.take(s.len() as int) =~= s);
    assert(first_token(s) == Some(s));
    lemma_lead_count(s, CharClass::IsNot('@'), s.len() as int);
    assert(token_command(s, bot_name) == Some(s));
    // The glued digits are the trailing digits.
    assert forall|j: int| s.len() - d.len() <= j < s.len() implies CharClass::Numeric.holds(
        #[trigger] s[j],
    ) by {
        assert(s[j] == d[j - c.len()]);
    }
    assert(s[s.len() - 1 - d.len()] == c.last());
    lemma_trail_count(s, CharClass::Numeric, d.len() as int);
    assert(s.take(c.len() as int) =~= c);
    assert(drop_trailing_class(s, CharClass::Numeric) == c);
    // The arguments are the digits.
    lemma_skip_bytes_concat(c, d);
    assert forall|j: int| 0 <= j < d.len() implies CharClass::Numeric.holds(#[trigger] d[j]) by {}
    lemma_lead_count(d, CharClass::Numeric, d.len() as int);
    assert(d.take(d.len() as int) =~= d);
    assert(take_class(d, CharClass::Numeric) == d);
    assert(d.skip(d.len() as int) =~= Seq::<char>::empty());
    assert(strip_repeated(Seq::<char>::empty(), d) == Seq::<char>::empty());
    assert(strip_repeated(d, d) == Seq::<char>::empty());
    let e = Seq::<char>::empty();
    assert(lead_count(e, CharClass::Is('@')) == 0);
    assert(e.skip(0) =~= e);
    assert(skip_class(e, CharClass::Is('@')) == e);
    assert(strip_repeated(e, bot_name) == e);
    assert(lead_count(e, CharClass::Whitespace) == 0);
    assert(trim_start(e) == e);
    let t = d + seq![' '] + e;
    assert(t =~= d.push(' '));
    assert(t[0] == d[0]);
    assert(lead_count(t, CharClass::Whitespace) == 0);
    assert(t.skip(0) =~= t);
    assert(t[t.len() - 1] == ' ');
    assert(t[t.len() - 2] == d.last());
    lemma_trail_count(t, CharClass::Whitespace, 1);
    assert(t.take(t.len() - 1) =~= d);
    assert(trim(t) == d);
    assert(command_arguments(s, c, bot_name) == Some(d));
}

/// Stripping a pattern off a text that does not start with its first
/// character leaves the text.
proof fn lemma_strip_no_match(s: Seq<char>, pat: Seq<char>)
    requires
        pat.len() > 0,
        s.len() > 0 ==> s[0] != pat[0],
    ensures
        strip_repeated(s, pat) == s,
{
    if pat.len() <= s.len() && s.take(pat.len() as int) == pat {
        assert(s.take(pat.len() as int)[0] == s[0]);
    }
}

/// Stripping a pattern off a text that is the pattern followed by a text
/// that does not start with it leaves that text.
proof fn lemma_strip_once(pat: Seq<char>, t: Seq<char>)
    requires
        pat.len() > 0,
        t.len() > 0 ==> t[0] != pat[0],
    ensures
        strip_repeated(pat + t, pat) == t,
{
    let s = pat + t;
    assert(s.take(pat.len() as int) =~= pat);
    assert(s.skip(pat.len() as int) =~= t);
    lemma_strip_no_match(t, pat);
}

/// A bot name as Telegram has them: not empty, without white space or `@`.
pub open spec fn plain_bot_name(b: Seq<char>) -> bool {
    &&& b.len() > 0
    &&& forall|i: int| 0 <= i < b.len() ==> !is_white_space(#[trigger] b[i]) && b[i] != '@'
}

/// What may follow a command's token: nothing, or a white-space character.
pub open spec fn token_end(rest: Seq<char>) -> bool {
    rest.len() > 0 ==> is_white_space(rest[0])
}

/// Adding `@` and the bot's name after a command and the digits glued to it
/// changes nothing: the same command is recognised, with the same
/// arguments.
pub proof fn lemma_bot_name_suffix(c: Seq<char>, d: Seq<char>, bot_name: Seq<char>, rest: Seq<char>)
    requires
        gluable_command(c),
        plain_bot_name(bot_name),
        all_digits(d),
        token_end(rest),
    ensures
        match_command_spec(Some(c + d + seq!['@'] + bot_name + rest), c, bot_name)
            == match_command_spec(Some(c + d + rest), c, bot_name),
        match_command_spec(Some(c + d + rest), c, bot_name).0 == Some(c),
{
    let b = bot_name;
    let at = seq!['@'];
    let t1 = c + d + at + b + rest;
    let t2 = c + d + rest;
    let tok1 = c + d + at + b;
    let tok2 = c + d;
    assert forall|j: int| 0 <= j < d.len() implies !is_white_space(#[trigger] d[j]) && d[j] != '@'
        && char_is_numeric(d[j]) by {
        assert(is_ascii_digit(d[j]));
    }
    // The tokens.
    assert forall|j: int| 0 <= j < tok1.len() implies !is_white_space(#[trigger] t1[j]) by {
        if j < c.len() {
            assert(t1[j] == c[j]);
        } else if j < c.len() + d.len() {
            assert(t1[j] == d[j - c.len()]);
        } else if j == c.len() + d.len() {
            assert(t1[j] == '@');
        } else {
            assert(t1[j] == b[j - c.len() - d.len() - 1]);
        }
    }
    assert forall|j: int| 0 <= j < tok2.len() implies !is_white_space(#[trigger] t2[j]) by {
        if j < c.len() {
            assert(t2[j] == c[j]);
        } else {
            assert(t2[j] == d[j - c.len()]);
        }
    }
    if rest.len() > 0 {
        assert(t1[tok1.len() as int] == rest[0]);
        assert(t2[tok2.len() as int] == rest[0]);
    }
    assert(t1[0] == c[0]);
    assert(t2[0] == c[0]);
    assert(lead_count(t1, CharClass::Whitespace) == 0);
    assert(lead_count(t2, CharClass::Whitespace) == 0);
    assert(t1.skip(0) =~= t1);
    assert(t2.skip(0) =~= t2);
    lemma_lead_count(t1, CharClass::NotWhitespace, tok1.len() as int);
    lemma_lead_count(t2, CharClass::NotWhitespace, tok2.len() as int);
    assert(t1.take(tok1.len() as int) =~= tok1);
    assert(t2.take(tok2.len() as int) =~= tok2);
    assert(first_token(t1) == Some(tok1));
    assert(first_token(t2) == Some(tok2));
    // The command part of each token.
    let n = (c.len() + d.len()) as int;
    assert forall|j: int| 0 <= j < n implies CharClass::IsNot('@').holds(#[trigger] tok1[j]) by {
        if j < c.len() {
            assert(tok1[j] == c[j]);
        } else {
            assert(tok1[j] == d[j - c.len()]);
        }
    }
    assert(tok1[n] == '@');
    lemma_lead_count(tok1, CharClass::IsNot('@'), n);
    assert(tok1.take(n) =~= tok2);
    assert(tok1.skip(n + 1) =~= b);
    lemma_lead_count(b, CharClass::IsNot('@'), b.len() as int);
    assert(b.take(b.len() as int) =~= b);
    assert(token_command(tok1, b) == Some(tok2));
    assert forall|j: int| 0 <= j < tok2.len() implies CharClass::IsNot('@').holds(#[trigger] tok2[j]) by {
        if j < c.len() {
            assert(tok2[j] == c[j]);
        } else {
            assert(tok2[j] == d[j - c.len()]);
        }
    }
    lemma_lead_count(tok2, CharClass::IsNot('@'), tok2.len() as int);
    assert(tok2.take(tok2.len() as int) =~= tok2);
    assert(token_command(tok2, b) == Some(tok2));
    assert forall|j: int| tok2.len() - d.len() <= j < tok2.len() implies CharClass::Numeric.holds(
        #[trigger] tok2[j],
    ) by {
        assert(tok2[j] == d[j - c.len()]);
    }
    assert(tok2[tok2.len() - 1 - d.len()] == c.last());
    lemma_trail_count(tok2, CharClass::Numeric, d.len() as int);
    assert(tok2.take(c.len() as int) =~= c);
    assert(drop_trailing_class(tok2, CharClass::Numeric) == c);
    // The arguments: both texts come down to `rest` after the glued digits.
    let x1 = d + at + b + rest;
    let x2 = d + rest;
    assert(t1 =~= c + x1);
    assert(t2 =~= c + x2);
    lemma_skip_bytes_concat(c, x1);
    lemma_skip_bytes_concat(c, x2);
    assert forall|j: int| 0 <= j < d.len() implies CharClass::Numeric.holds(#[trigger] x1[j]) by {
        assert(x1[j] == d[j]);
    }
    assert(x1[d.len() as int] == '@');
    lemma_lead_count(x1, CharClass::Numeric, d.len() as int);
    assert forall|j: int| 0 <= j < d.len() implies CharClass::Numeric.holds(#[trigger] x2[j]) by {
        assert(x2[j] == d[j]);
    }
    if rest.len() > 0 {
        assert(x2[d.len() as int] == rest[0]);
    }
    lemma_lead_count(x2, CharClass::Numeric, d.len() as int);
    assert(x1.take(d.len() as int) =~= d);
    assert(x2.take(d.len() as int) =~= d);
    let y1 = at + b + rest;
    if d.len() > 0 {
        assert(x1 =~= d + y1);
        assert(x2 =~= d + rest);
        assert(y1[0] == '@');
        assert(is_ascii_digit(d[0]));
        lemma_strip_once(d, y1);
        lemma_strip_once(d, rest);
    } else {
        assert(x1 =~= y1);
        assert(x2 =~= rest);
    }
    assert(strip_repeated(x1, d) == y1);
    assert(strip_repeated(x2, d) == rest);
    assert(y1[0] == '@');
    assert(y1[1] == b[0]);
    lemma_lead_count(y1, CharClass::Is('@'), 1);
    assert(y1.skip(1) =~= b + rest);
    assert(skip_class(y1, CharClass::Is('@')) == b + rest);
    if rest.len() > 0 {
        assert(rest[0] != '@');
    }
    lemma_lead_count(rest, CharClass::Is('@'), 0);
    assert(rest.skip(0) =~= rest);
    assert(skip_class(rest, CharClass::Is('@')) == rest);
    if rest.len() > 0 {
        assert(!is_white_space(b[0]));
    }
    lemma_strip_once(b, rest);
    lemma_strip_no_match(rest, b);
    assert(strip_repeated(b + rest, b) == rest);
    assert(strip_repeated(rest, b) == rest);
    assert(command_arguments(t1, c, b) == command_arguments(t2, c, b));
}

/// Sending a planned activity's join link (`/join{id}`, which the listing
/// offers as "Enter /join3 to join this group") asks to join exactly that
/// activity.
pub proof fn lemma_join_link_roundtrip(id: i32, bot_name: Seq<char>)
    requires
        id >= 0,
    ensures
        match_command_spec(Some(join_link_text(id)), "/join"@, bot_name).0 == Some("/join"@),
        activity_id_spec(match_command_spec(Some(join_link_text(id)), "/join"@, bot_name).1)
            == Some(id),
{
    reveal_strlit("/join");
    assert("/join"@.last() == 'n');
    lemma_glued_command("/join"@, id as nat, bot_name);
    lemma_parse_decimal_roundtrip(id);
}

/// Sending a planned activity's leave link (`/cancel{id}`) asks to leave
/// exactly that activity.
pub proof fn lemma_cancel_link_roundtrip(id: i32, bot_name: Seq<char>)
    requires
        id >= 0,
    ensures
        match_command_spec(Some(cancel_link_text(id)), "/cancel"@, bot_name).0 == Some(
            "/cancel"@,
        ),
        activity_id_spec(match_command_spec(Some(cancel_link_text(id)), "/cancel"@, bot_name).1)
            == Some(id),
{
    reveal_strlit("/cancel");
    assert("/cancel"@.last() == 'l');
    lemma_glued_command("/cancel"@, id as nat, bot_name);
    lemma_parse_decimal_roundtrip(id);
}

// ---------------------------------------------------------------------------
// What joining and leaving keep
// ---------------------------------------------------------------------------

/// A guardian is added to a planned activity only where it exists, the
/// guardian is not yet a member, the fireteam has room and the activity is
/// not over; and then to that activity, as of now.
pub proof fn lemma_join_adds_only_when_allowed(f: JoinFacts)
    requires
        join_step_spec(f) matches JoinStep::AddMember { .. },
    ensures
        f.planned matches Some(Some(p)) && join_step_spec(f) == (JoinStep::AddMember {
            planned_activity_id: p.id,
            user_id: f.guardian_id,
            added: f.now,
        }) && !activity_is_past(p.start as int, f.now as int),
        f.already_member == Some(false),
        f.fireteam matches Some((members, max_size)) && !crate::models::fireteam_is_full(
            members as nat,
            max_size,
        ),
{
}

/// The next step in leaving removes the planned activity.
pub open spec fn disbands_next(f: CancelFacts) -> bool {
    cancel_step_spec(f) matches CancelStep::RemoveActivity(_)
}

/// Once a guardian's membership is removed, the group is disbanded (its
/// planned activity removed) exactly when no member is left.
pub proof fn lemma_cancel_disbands_last_member(f: CancelFacts)
    requires
        f.planned matches Some(Some(p)) && !activity_is_past(p.start as int, f.now as int),
        f.membership matches Some(Some(_)),
        f.removed == Some(true),
        f.remaining is Some,
        f.disbanded is None,
    ensures
        disbands_next(f) <==> f.remaining == Some(0usize),
{
}

/// Only the leaving guardian's own membership of a planned activity that is
/// not over is ever removed.
pub proof fn lemma_cancel_removes_only_own_current_membership(f: CancelFacts)
    requires
        cancel_step_spec(f) matches CancelStep::RemoveMember(_),
    ensures
        f.planned matches Some(Some(p)) && !activity_is_past(p.start as int, f.now as int),
        f.membership matches Some(Some(m)) && cancel_step_spec(f) == CancelStep::RemoveMember(m),
{
}

/// A guardian who is not yet a member of an existing planned activity that
/// started less than an hour ago (or has yet to start) is added to it while
/// fewer members than its maximum fireteam size are in it, as of now.
pub proof fn lemma_join_admits_below_capacity(
    f: JoinFacts,
    p: PlannedActivity,
    members: usize,
    max_size: i32,
)
    requires
        f.planned == Some(Some(p)),
        f.already_member == Some(false),
        f.fireteam == Some((members, max_size)),
        (members as int) < (max_size as int),
        f.now as int - 3600 <= p.start as int,
        f.saved is None,
    ensures
        join_step_spec(f) == (JoinStep::AddMember {
            planned_activity_id: p.id,
            user_id: f.guardian_id,
            added: f.now,
        }),
{
    assert((max_size as usize) as int == max_size as int);
}

/// A join is refused as full only where at least as many members as the
/// maximum fireteam size are in the group.
pub proof fn lemma_join_full_only_when_full(f: JoinFacts)
    requires
        join_step_spec(f) == JoinStep::Refuse(JoinRefusal::Full),
    ensures
        f.fireteam matches Some((members, max_size)) && members as int >= max_size as int,
{
    if let Some(Some(p)) = f.planned {
        if let Some((members, max_size)) = f.fireteam {
            if max_size >= 0 {
                assert((max_size as usize) as int == max_size as int);
            }
        }
    }
}

} // verus!
