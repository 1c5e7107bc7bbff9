//! Creating a group (`/lfg`) and changing one (`/edit`): how the start time
//! is read, and what each command decides between its lookups.

use vstd::prelude::*;
use crate::commands::{splitn, splitn_char, strings_view};
use crate::matching::opt_chars;
use crate::membership::{activity_is_past, is_past_activity};
use crate::models::{NewPlannedActivity, NewPlannedActivityMember, PlannedActivity, str_eq};
use crate::numbers::{decimal, i64_decimal, is_ascii_digit, parse_i32_spec, parse_i32_str};
use crate::text::{chars_to_string, concat2, concat3, extend_chars, push_str, str_chars};

verus! {

// ---------------------------------------------------------------------------
// Reading a start time
// ---------------------------------------------------------------------------

/// The largest distance, in seconds, of the current time from the epoch at
/// which start times are read (about 3,000 years).
pub const TIME_LIMIT: i64 = 100_000_000_000;

/// Five ASCII digits in a row start at `k`.
pub open spec fn five_digits_at(s: Seq<char>, k: int) -> bool {
    is_ascii_digit(s[k]) && is_ascii_digit(s[k + 1]) && is_ascii_digit(s[k + 2])
        && is_ascii_digit(s[k + 3]) && is_ascii_digit(s[k + 4])
}

/// A `.` at `i` is the text's last character or is followed by an ASCII
/// digit.
pub open spec fn dot_then_digit(s: Seq<char>, i: int) -> bool {
    s[i] == '.' && i + 1 < s.len() ==> is_ascii_digit(s[i + 1])
}

/// A start time text that the English date reader takes: ASCII only, with
/// no number longer than four digits, and every `.` followed by a digit (or
/// ending the text).
pub open spec fn plain_time_text(s: Seq<char>) -> bool {
    &&& forall|i: int| 0 <= i < s.len() ==> (#[trigger] s[i] as u32) < 128
    &&& forall|k: int| 0 <= k && k + 5 <= s.len() ==> !#[trigger] five_digits_at(s, k)
    &&& forall|i: int| 0 <= i < s.len() ==> #[trigger] dot_then_digit(s, i)
}

/// The instant (Unix seconds) that `chrono_english` reads from `text` in
/// British usage, taking the Moscow time zone and the moment `now` for
/// everything the text leaves out (`None` where it cannot read the text).
pub uninterp spec fn english_start_time(text: Seq<char>, now: i64) -> Option<i64>;

/// Calls `chrono_english::parse_date_string(text, base, Dialect::Uk)`, where
/// `base` is the instant `now` in `chrono_tz::Europe::Moscow`, and returns the
/// Unix timestamp of the result. The claim: the result is the named function
/// `english_start_time` of the two arguments. What the reader makes of a text
/// is not restated. The crate's reader slices identifiers by bytes,
/// multiplies numbers unchecked, and after a `.` that follows a time of day
/// parses the next character and the digits after it as a fraction with an
/// `unwrap`; so it can panic on texts with non-ASCII letters, very long
/// numbers, or a `.` followed by anything but a digit, and near the ends of
/// chrono's time range. `requires` leaves all of those out (and with them
/// some texts that would not panic).
#[verifier::external_body]
fn english_date(text: &str, now: i64) -> (r: Option<i64>)
    requires
        plain_time_text(text@),
        -TIME_LIMIT <= now <= TIME_LIMIT,
    ensures
        r == english_start_time(text@, now),
{
    let base = chrono::DateTime::from_timestamp(now, 0)?.with_timezone(&chrono_tz::Europe::Moscow);
    chrono_english::parse_date_string(text, base, chrono_english::Dialect::Uk).ok().map(
        |t| t.timestamp(),
    )
}

/// Whether `text` is a start time text that the date reader takes.
pub fn is_plain_time_text(text: &str) -> (r: bool)
    ensures
        r == plain_time_text(text@),
{
    let s = str_chars(text);
    let mut run: usize = 0;
    let mut prev_dot = false;
    let mut i: usize = 0;
    while i < s.len()
        invariant
            i <= s.len(),
            s@ == text@,
            run <= 4,
            run <= i,
            forall|j: int| 0 <= j < i ==> (#[trigger] s@[j] as u32) < 128,
            forall|k: int| 0 <= k && k + 5 <= i ==> !#[trigger] five_digits_at(s@, k),
            forall|j: int| i - run <= j < i ==> is_ascii_digit(#[trigger] s@[j]),
            i - run == 0 || !is_ascii_digit(s@[i - run - 1]),
            forall|j: int| 0 <= j && j + 1 < i ==> #[trigger] dot_then_digit(s@, j),
            prev_dot == (i > 0 && s@[i - 1] == '.'),
        decreases s.len() - i,
    {
        let c = s[i];
        if prev_dot && !('0' <= c && c <= '9') {
            assert(!dot_then_digit(s@, i - 1));
            return false;
        }
        prev_dot = c == '.';
        if (c as u32) >= 128 {
            assert((s@[i as int] as u32) >= 128);
            return false;
        }
        if '0' <= c && c <= '9' {
            if run == 4 {
                assert(five_digits_at(s@, i - 4));
                return false;
            }
            run = run + 1;
        } else {
            run = 0;
        }
        proof {
            let ii = i + 1;
            assert forall|k: int| 0 <= k && k + 5 <= ii implies !#[trigger] five_digits_at(s@, k) by {
                if k + 5 == ii {
                    if !is_ascii_digit(s@[i as int]) {
                    } else {
                        let p = ii - run - 1;
                        if p >= 0 {
                            assert(!is_ascii_digit(s@[p]));
                        }
                    }
                }
            }
        }
        i = i + 1;
    }
    assert forall|j: int| 0 <= j < s@.len() implies #[trigger] dot_then_digit(s@, j) by {
        if j + 1 < s@.len() {
        }
    }
    true
}

/// The start time the date reader finds in `text` at `now`.
pub fn read_start_time(text: &str, now: i64) -> (r: Option<i64>)
    requires
        plain_time_text(text@),
        -TIME_LIMIT <= now <= TIME_LIMIT,
    ensures
        r == english_start_time(text@, now),
{
    english_date(text, now)
}

// ---------------------------------------------------------------------------
// Creating a group
// ---------------------------------------------------------------------------

/// What is known so far while a guardian creates a group with `/lfg`. `None`
/// marks what has not been looked up (or stored) yet.
pub struct LfgFacts {
    /// The registered sender.
    pub guardian_id: i32,
    /// The current time.
    pub now: i64,
    /// The activity that the shortcut links to, or `Some(None)` where no
    /// shortcut has that name.
    pub shortcut_link: Option<Option<i32>>,
    /// The start time read from the command, or `Some(None)` where it could
    /// not be read.
    pub start: Option<Option<i64>>,
    /// The id of the stored planned activity.
    pub planned_id: Option<i32>,
    /// Whether the creator was stored as its first member.
    pub member_added: bool,
}

/// The next step in creating a group.
#[derive(PartialEq, Eq, Structural)]
pub enum LfgStep {
    /// Look up the shortcut named in the command.
    LookUpShortcut,
    /// Reply that no shortcut has that name.
    UnknownShortcut,
    /// Read the start time.
    ReadStartTime,
    /// Reply that the start time cannot be read.
    BadTime,
    /// Store the planned activity.
    StorePlanned { author_id: i32, activity_id: i32, start: i64 },
    /// Store the creator as its first member.
    StoreMember { planned_activity_id: i32, user_id: i32, added: i64 },
    /// Done: announce the new group.
    Created { planned_activity_id: i32, activity_id: i32 },
}

/// The next step in creating a group: find the shortcut, read the start
/// time, store the planned activity and then its creator as a member.
pub open spec fn lfg_step_spec(f: LfgFacts) -> LfgStep {
    match f.shortcut_link {
        None => LfgStep::LookUpShortcut,
        Some(None) => LfgStep::UnknownShortcut,
        Some(Some(link)) => match f.start {
            None => LfgStep::ReadStartTime,
            Some(None) => LfgStep::BadTime,
            Some(Some(t)) => match f.planned_id {
                None => LfgStep::StorePlanned { author_id: f.guardian_id, activity_id: link, start: t },
                Some(id) => if !f.member_added {
                    LfgStep::StoreMember { planned_activity_id: id, user_id: f.guardian_id, added: f.now }
                } else {
                    LfgStep::Created { planned_activity_id: id, activity_id: link }
                },
            },
        },
    }
}

/// The next step in creating a group.
pub fn lfg_step(f: &LfgFacts) -> (r: LfgStep)
    ensures
        r == lfg_step_spec(*f),
{
    match f.shortcut_link {
        None => LfgStep::LookUpShortcut,
        Some(None) => LfgStep::UnknownShortcut,
        Some(Some(link)) => match f.start {
            None => LfgStep::ReadStartTime,
            Some(None) => LfgStep::BadTime,
            Some(Some(t)) => match f.planned_id {
                None => LfgStep::StorePlanned { author_id: f.guardian_id, activity_id: link, start: t },
                Some(id) => if !f.member_added {
                    LfgStep::StoreMember { planned_activity_id: id, user_id: f.guardian_id, added: f.now }
                } else {
                    LfgStep::Created { planned_activity_id: id, activity_id: link }
                },
            },
        },
    }
}

// ---------------------------------------------------------------------------
// Changing a group
// ---------------------------------------------------------------------------

/// A parsed `/edit` request: the activity id, the attribute and its new value
/// as written; `None` where the command has no three parts (then the usage
/// is shown).
pub open spec fn edit_request_spec(args: Option<Seq<char>>) -> Option<(Seq<char>, Seq<char>, Seq<char>)> {
    match args {
        None => None,
        Some(a) => {
            let parts = splitn_char(a, 3, ' ');
            if parts.len() != 3 {
                None
            } else {
                Some((parts[0], parts[1], parts[2]))
            }
        },
    }
}

/// Reads the arguments of `/edit`.
pub fn edit_request(args: &Option<String>) -> (r: Option<(String, String, String)>)
    ensures
        match r {
            Some((a, b, c)) => edit_request_spec(opt_chars(*args)) == Some((a@, b@, c@)),
            None => edit_request_spec(opt_chars(*args)) is None,
        },
{
    match args {
        None => None,
        Some(a) => {
            let parts = splitn(a.as_str(), 3, ' ');
            if parts.len() != 3 {
                None
            } else {
                let ghost v = strings_view(parts@);
                assert(v[0] == parts@[0]@);
                assert(v[1] == parts@[1]@);
                assert(v[2] == parts@[2]@);
                Some((parts[0].clone(), parts[1].clone(), parts[2].clone()))
            }
        },
    }
}

/// The usage of `/edit`.
pub open spec fn edit_usage_text() -> Seq<char> {
    "Usage:\n\nActivityIDs are available from output of /list command.\n\n/edit ActivityID time <new time>\n    Change activity time to a new one. Accepted time spec\n    is the same as in /lfg command.\n\n/edit ActivityID details <free form details description>\n    Replaces old /details command.\n    To update activity details enter text,\n    to delete details use `delete` instead of text.\n\n/edit ActivityID activity <new activity shortcut>\n    Change type of activity, list of shortcuts\n    is available from output of /activities command"@
}

/// The usage of `/edit`.
pub fn edit_usage() -> (r: String)
    ensures
        r@ == edit_usage_text(),
{
    "Usage:\n\nActivityIDs are available from output of /list command.\n\n/edit ActivityID time <new time>\n    Change activity time to a new one. Accepted time spec\n    is the same as in /lfg command.\n\n/edit ActivityID details <free form details description>\n    Replaces old /details command.\n    To update activity details enter text,\n    to delete details use `delete` instead of text.\n\n/edit ActivityID activity <new activity shortcut>\n    Change type of activity, list of shortcuts\n    is available from output of /activities command".to_owned()
}

/// The attribute an `/edit` changes.
#[derive(Clone, Copy, PartialEq, Eq, Structural)]
pub enum EditAttribute {
    Time,
    Details,
    Activity,
}

/// What is known so far while a guardian changes a planned activity. `None`
/// marks what has not been looked up (or stored) yet.
pub struct EditFacts {
    /// The activity id as written.
    pub id_text: String,
    pub attribute: String,
    pub value: String,
    pub now: i64,
    /// The planned activity, or `Some(None)` where there is none.
    pub planned: Option<Option<PlannedActivity>>,
    /// The new start time read from the value, or `Some(None)` where it
    /// could not be read.
    pub new_start: Option<Option<i64>>,
    /// The activity that the shortcut named in the value links to, or
    /// `Some(None)` where no shortcut has that name.
    pub shortcut_link: Option<Option<i32>>,
    /// Whether storing the change succeeded.
    pub saved: Option<bool>,
}

/// How an `/edit` ends.
#[derive(PartialEq, Eq, Structural)]
pub enum EditReply {
    NotANumber,
    NotFound(i32),
    Past,
    BadTime,
    UnknownShortcut,
    UnknownAttribute,
    SaveFailed(EditAttribute),
    Saved(EditAttribute),
}

/// The next step in changing a planned activity.
#[derive(PartialEq, Eq, Structural)]
pub enum EditStep {
    LookUpActivity(i32),
    /// Read the new start time from the value.
    ReadStartTime,
    /// Look up the shortcut named in the value.
    LookUpShortcut,
    /// Store the changed planned activity (see `edited_activity`).
    Save(EditAttribute),
    Reply(EditReply),
}

/// Store the change, or report how storing it went.
pub open spec fn save_step(saved: Option<bool>, a: EditAttribute) -> EditStep {
    match saved {
        None => EditStep::Save(a),
        Some(false) => EditStep::Reply(EditReply::SaveFailed(a)),
        Some(true) => EditStep::Reply(EditReply::Saved(a)),
    }
}

/// The next step in changing a planned activity: read the id, look the
/// activity up, refuse a past one, then change the time (read from the
/// value), the details, or the activity (through the shortcut named in the
/// value, refusing a name that no shortcut has), and store it. Only the
/// activity's current start is checked against the clock: a new start time
/// that was read is stored even where it lies in the past.
pub open spec fn edit_step_spec(f: EditFacts) -> EditStep {
    match parse_i32_spec(f.id_text@) {
        None => EditStep::Reply(EditReply::NotANumber),
        Some(id) => match f.planned {
            None => EditStep::LookUpActivity(id),
            Some(None) => EditStep::Reply(EditReply::NotFound(id)),
            Some(Some(p)) => if activity_is_past(p.start as int, f.now as int) {
                EditStep::Reply(EditReply::Past)
            } else if f.attribute@ == "time"@ {
                match f.new_start {
                    None => EditStep::ReadStartTime,
                    Some(None) => EditStep::Reply(EditReply::BadTime),
                    Some(Some(_)) => save_step(f.saved, EditAttribute::Time),
                }
            } else if f.attribute@ == "details"@ {
                save_step(f.saved, EditAttribute::Details)
            } else if f.attribute@ == "activity"@ {
                match f.shortcut_link {
                    None => EditStep::LookUpShortcut,
                    Some(None) => EditStep::Reply(EditReply::UnknownShortcut),
                    Some(Some(_)) => save_step(f.saved, EditAttribute::Activity),
                }
            } else {
                EditStep::Reply(EditReply::UnknownAttribute)
            },
        },
    }
}

fn save_step_exec(saved: Option<bool>, a: EditAttribute) -> (r: EditStep)
    ensures
        r == save_step(saved, a),
{
    match saved {
        None => EditStep::Save(a),
        Some(false) => EditStep::Reply(EditReply::SaveFailed(a)),
        Some(true) => EditStep::Reply(EditReply::Saved(a)),
    }
}

/// The next step in changing a planned activity.
pub fn edit_step(f: &EditFacts) -> (r: EditStep)
    ensures
        r == edit_step_spec(*f),
{
    let id = match parse_i32_str(f.id_text.as_str()) {
        None => return EditStep::Reply(EditReply::NotANumber),
        Some(id) => id,
    };
    match &f.planned {
        None => EditStep::LookUpActivity(id),
        Some(None) => EditStep::Reply(EditReply::NotFound(id)),
        Some(Some(p)) => if is_past_activity(p.start, f.now) {
            EditStep::Reply(EditReply::Past)
        } else if str_eq(f.attribute.as_str(), "time") {
            match f.new_start {
                None => EditStep::ReadStartTime,
                Some(None) => EditStep::Reply(EditReply::BadTime),
                Some(Some(_)) => save_step_exec(f.saved, EditAttribute::Time),
            }
        } else if str_eq(f.attribute.as_str(), "details") {
            save_step_exec(f.saved, EditAttribute::Details)
        } else if str_eq(f.attribute.as_str(), "activity") {
            match f.shortcut_link {
                None => EditStep::LookUpShortcut,
                Some(None) => EditStep::Reply(EditReply::UnknownShortcut),
                Some(Some(_)) => save_step_exec(f.saved, EditAttribute::Activity),
            }
        } else {
            EditStep::Reply(EditReply::UnknownAttribute)
        },
    }
}

/// A new start time is saved whatever it is, a past one too, once the
/// planned activity it changes is found and has not started an hour ago.
pub proof fn lemma_edit_saves_any_new_time(f: EditFacts, id: i32, p: PlannedActivity, t: i64)
    requires
        parse_i32_spec(f.id_text@) == Some(id),
        f.planned == Some(Some(p)),
        !activity_is_past(p.start as int, f.now as int),
        f.attribute@ == "time"@,
        f.new_start == Some(Some(t)),
        f.saved is None,
    ensures
        edit_step_spec(f) == EditStep::Save(EditAttribute::Time),
{
}

/// New details are stored for a planned activity that is found and started
/// less than an hour ago (or has yet to start), and the reply says how
/// storing went.
pub proof fn lemma_edit_saves_details(f: EditFacts, id: i32, p: PlannedActivity)
    requires
        parse_i32_spec(f.id_text@) == Some(id),
        f.planned == Some(Some(p)),
        f.now as int - 3600 <= p.start as int,
        f.attribute@ == "details"@,
    ensures
        f.saved is None ==> edit_step_spec(f) == EditStep::Save(EditAttribute::Details),
        f.saved == Some(true) ==> edit_step_spec(f) == EditStep::Reply(
            EditReply::Saved(EditAttribute::Details),
        ),
        f.saved == Some(false) ==> edit_step_spec(f) == EditStep::Reply(
            EditReply::SaveFailed(EditAttribute::Details),
        ),
{
    reveal_strlit("details");
    reveal_strlit("time");
    assert("details"@[0] != "time"@[0]);
}

/// A new activity is stored for a planned activity that is found and
/// started less than an hour ago (or has yet to start), once the shortcut
/// named in the value is found.
pub proof fn lemma_edit_saves_activity(f: EditFacts, id: i32, p: PlannedActivity, link: i32)
    requires
        parse_i32_spec(f.id_text@) == Some(id),
        f.planned == Some(Some(p)),
        f.now as int - 3600 <= p.start as int,
        f.attribute@ == "activity"@,
        f.shortcut_link == Some(Some(link)),
        f.saved is None,
    ensures
        edit_step_spec(f) == EditStep::Save(EditAttribute::Activity),
{
    reveal_strlit("activity");
    reveal_strlit("details");
    reveal_strlit("time");
    assert("activity"@[0] != "time"@[0]);
    assert("activity"@[0] != "details"@[0]);
}

/// The details an `/edit ... details` stores: none for `delete` (the
/// details are deleted), else the text given.
pub open spec fn new_details(value: Seq<char>) -> Option<Seq<char>> {
    if value == "delete"@ {
        None
    } else {
        Some(value)
    }
}

/// The planned activity `p` with the change that `EditStep::Save(a)` stores:
/// the new start time, the new details, or the shortcut's activity.
pub fn edited_activity(p: &PlannedActivity, a: EditAttribute, f: &EditFacts) -> (r: PlannedActivity)
    requires
        a == EditAttribute::Time ==> f.new_start matches Some(Some(_)),
        a == EditAttribute::Activity ==> f.shortcut_link matches Some(Some(_)),
    ensures
        r.id == p.id,
        r.author_id == p.author_id,
        r.start == (if a == EditAttribute::Time {
            f.new_start->0->0
        } else {
            p.start
        }),
        r.activity_id == (if a == EditAttribute::Activity {
            f.shortcut_link->0->0
        } else {
            p.activity_id
        }),
        opt_chars(r.details) == (if a == EditAttribute::Details {
            new_details(f.value@)
        } else {
            opt_chars(p.details)
        }),
        a == EditAttribute::Details && f.value@ == "delete"@ ==> r.details is None,
        a == EditAttribute::Details && f.value@ != "delete"@ ==> opt_chars(r.details) == Some(
            f.value@,
        ),
{
    let details = match a {
        EditAttribute::Details => if str_eq(f.value.as_str(), "delete") {
            None
        } else {
            Some(f.value.clone())
        },
        _ => p.details.clone(),
    };
    let start = match a {
        EditAttribute::Time => match f.new_start {
            Some(Some(t)) => t,
            _ => p.start,
        },
        _ => p.start,
    };
    let activity_id = match a {
        EditAttribute::Activity => match f.shortcut_link {
            Some(Some(link)) => link,
            _ => p.activity_id,
        },
        _ => p.activity_id,
    };
    PlannedActivity { id: p.id, author_id: p.author_id, activity_id, details, start }
}

/// The reply that ends an `/edit` of `attribute` with `value`.
pub open spec fn edit_reply_text(r: EditReply, attribute: Seq<char>, value: Seq<char>) -> Seq<char> {
    match r {
        EditReply::NotANumber => "ActivityID must be a number"@,
        EditReply::NotFound(id) => "Activity "@ + decimal(id as int) + " was not found."@,
        EditReply::Past => "You can not edit past activities."@,
        EditReply::BadTime => "Failed to parse time "@ + value,
        EditReply::UnknownShortcut => edit_unknown_shortcut_text(value),
        EditReply::UnknownAttribute => "Unknown attribute "@ + attribute,
        EditReply::SaveFailed(EditAttribute::Time) => "Failed to update start time."@,
        EditReply::SaveFailed(EditAttribute::Details) => "Failed to update details."@,
        EditReply::SaveFailed(EditAttribute::Activity) => "Failed to update activity."@,
        EditReply::Saved(EditAttribute::Time) => "Start time updated."@,
        EditReply::Saved(EditAttribute::Details) => "Details updated."@,
        EditReply::Saved(EditAttribute::Activity) => "Activity updated."@,
    }
}

impl EditReply {
    /// The reply that ends an `/edit` of `attribute` with `value`.
    pub fn text(&self, attribute: &str, value: &str) -> (r: String)
        ensures
            r@ == edit_reply_text(*self, attribute@, value@),
    {
        match self {
            EditReply::NotANumber => "ActivityID must be a number".to_owned(),
            EditReply::NotFound(id) => {
                let mut v: Vec<char> = Vec::new();
                push_str(&mut v, "Activity ");
                extend_chars(&mut v, i64_decimal(*id as i64).as_slice());
                push_str(&mut v, " was not found.");
                chars_to_string(v.as_slice())
            },
            EditReply::Past => "You can not edit past activities.".to_owned(),
            EditReply::BadTime => concat2("Failed to parse time ", value),
            EditReply::UnknownShortcut => concat3(
                "Activity ",
                value,
                " was not found. Use /activities for a list.",
            ),
            EditReply::UnknownAttribute => concat2("Unknown attribute ", attribute),
            EditReply::SaveFailed(EditAttribute::Time) => "Failed to update start time.".to_owned(),
            EditReply::SaveFailed(EditAttribute::Details) => "Failed to update details.".to_owned(),
            EditReply::SaveFailed(EditAttribute::Activity) => "Failed to update activity.".to_owned(),
            EditReply::Saved(EditAttribute::Time) => "Start time updated.".to_owned(),
            EditReply::Saved(EditAttribute::Details) => "Details updated.".to_owned(),
            EditReply::Saved(EditAttribute::Activity) => "Activity updated.".to_owned(),
        }
    }
}

/// Reply where the shortcut named in an `/edit ... activity` does not exist.
pub open spec fn edit_unknown_shortcut_text(shortcut: Seq<char>) -> Seq<char> {
    "Activity "@ + shortcut + " was not found. Use /activities for a list."@
}


} // verus!
