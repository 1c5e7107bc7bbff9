//! The admin command `/activities`: listing the activities, adding,
//! editing and deleting them, and adding shortcuts.

use vstd::prelude::*;
use crate::commands::{splitn, splitn_char, strings_view};
use crate::kvargs::{
    Entry, KvArgs, entries_view, kv_lookup, last_value, parse_kv_args, parse_kv_args_spec,
};
use crate::matching::opt_chars;
use crate::membership::{activity_not_found_reply, activity_not_found_text};
use crate::models::{
    Activity, ActivityShortcut, ActivityView, NewActivity, NewActivityView, activity_name_text,
    text_or_empty,
};
use crate::numbers::{decimal, i64_decimal, parse_i32, parse_i32_spec, parse_i32_str};
use crate::text::{chars_to_string, concat2, concat3, extend_chars, push_str, str_chars};

verus! {

/// A parsed `/activities` request, as values.
pub enum ActivitiesRequestView {
    ListAll,
    Ids,
    Add(Seq<Entry>),
    AddShortcut(i32, Seq<char>, Seq<char>),
    Edit(i32, Seq<Entry>),
    Delete(i32),
    /// Reply with the text, then (where the flag is set) show the usage.
    Refuse(Seq<char>, bool),
}

/// A parsed `/activities` request.
pub enum ActivitiesRequest {
    /// `/activities`: list the shortcuts (open to everyone).
    ListAll,
    /// `/activities ids`: list activities with their ids.
    Ids,
    /// `/activities add KV`: add an activity.
    Add(KvArgs),
    /// `/activities addsc ID NAME GAME`: add a shortcut to an activity.
    AddShortcut { link: i32, name: String, game: String },
    /// `/activities edit ID KV`: change an activity's fields.
    Edit { id: i32, args: KvArgs },
    /// `/activities delete ID`: delete an activity.
    Delete(i32),
    /// A malformed request: reply with the text, then show the usage where
    /// `then_usage` is set.
    Refuse { text: String, then_usage: bool },
}

impl View for ActivitiesRequest {
    type V = ActivitiesRequestView;

    open spec fn view(&self) -> ActivitiesRequestView {
        match self {
            ActivitiesRequest::ListAll => ActivitiesRequestView::ListAll,
            ActivitiesRequest::Ids => ActivitiesRequestView::Ids,
            ActivitiesRequest::Add(kv) => ActivitiesRequestView::Add(kv@),
            ActivitiesRequest::AddShortcut { link, name, game } => ActivitiesRequestView::AddShortcut(
                *link,
                name@,
                game@,
            ),
            ActivitiesRequest::Edit { id, args } => ActivitiesRequestView::Edit(*id, args@),
            ActivitiesRequest::Delete(id) => ActivitiesRequestView::Delete(*id),
            ActivitiesRequest::Refuse { text, then_usage } => ActivitiesRequestView::Refuse(
                text@,
                *then_usage,
            ),
        }
    }
}

/// Which subcommand of `/activities` its arguments ask for. Every request
/// but the plain listing is for admins only.
pub open spec fn activities_request_spec(args: Option<Seq<char>>) -> ActivitiesRequestView {
    match args {
        None => ActivitiesRequestView::ListAll,
        Some(a) => {
            let parts = splitn_char(a, 2, ' ');
            let sub = parts[0];
            if sub == "ids"@ {
                ActivitiesRequestView::Ids
            } else if sub == "add"@ {
                if parts.len() < 2 {
                    ActivitiesRequestView::Refuse("❓ Syntax: /activities add KV"@, true)
                } else {
                    match parse_kv_args_spec(parts[1]) {
                        None => ActivitiesRequestView::Refuse(
                            "❌ Invalid activity specification, see help."@,
                            false,
                        ),
                        Some(kv) => ActivitiesRequestView::Add(kv),
                    }
                }
            } else if sub == "addsc"@ {
                if parts.len() < 2 {
                    ActivitiesRequestView::Refuse(
                        "❓ Syntax: /activities addsc ActivityID ShortcutName Game name"@,
                        false,
                    )
                } else {
                    let p3 = splitn_char(parts[1], 3, ' ');
                    if p3.len() != 3 {
                        ActivitiesRequestView::Refuse(
                            "❌ To add a shortcut specify 1) activity ID, 2) shortcut name and then 3) the game name"@,
                            false,
                        )
                    } else {
                        match parse_i32_spec(p3[0]) {
                            None => ActivitiesRequestView::Refuse(
                                "❌ ActivityID must be a number"@,
                                false,
                            ),
                            Some(link) => ActivitiesRequestView::AddShortcut(link, p3[1], p3[2]),
                        }
                    }
                }
            } else if sub == "edit"@ {
                if parts.len() < 2 {
                    ActivitiesRequestView::Refuse("❓ Syntax: /activities edit ID KV"@, true)
                } else {
                    let p2 = splitn_char(parts[1], 2, ' ');
                    if p2.len() != 2 {
                        ActivitiesRequestView::Refuse(
                            "❌ To edit first specify Activity ID and then key=value pairs"@,
                            false,
                        )
                    } else {
                        match parse_i32_spec(p2[0]) {
                            None => ActivitiesRequestView::Refuse(
                                "❌ ActivityID must be a number"@,
                                false,
                            ),
                            Some(id) => match parse_kv_args_spec(p2[1]) {
                                None => ActivitiesRequestView::Refuse(
                                    "❌ Invalid activity specification, see help."@,
                                    false,
                                ),
                                Some(kv) => ActivitiesRequestView::Edit(id, kv),
                            },
                        }
                    }
                }
            } else if sub == "delete"@ {
                if parts.len() < 2 {
                    ActivitiesRequestView::Refuse("❓ Syntax: /activities delete ID"@, true)
                } else {
                    match parse_i32_spec(parts[1]) {
                        None => ActivitiesRequestView::Refuse(
                            "❌ Activity ID must be a number"@,
                            false,
                        ),
                        Some(id) => ActivitiesRequestView::Delete(id),
                    }
                }
            } else {
                ActivitiesRequestView::Refuse("❌ Unknown activities operation"@, true)
            }
        },
    }
}

fn refuse(text: &str, then_usage: bool) -> (r: ActivitiesRequest)
    ensures
        r@ == ActivitiesRequestView::Refuse(text@, then_usage),
{
    ActivitiesRequest::Refuse { text: text.to_owned(), then_usage }
}

/// Reads the arguments of `/activities`.
pub fn activities_request(args: &Option<String>) -> (r: ActivitiesRequest)
    ensures
        r@ == activities_request_spec(opt_chars(*args)),
{
    let a = match args {
        None => return ActivitiesRequest::ListAll,
        Some(a) => a,
    };
    let parts = splitn(a.as_str(), 2, ' ');
    let ghost pv = strings_view(parts@);
    assert(pv[0] == parts@[0]@);
    if parts.len() >= 2 {
        assert(pv[1] == parts@[1]@);
    }
    let sub = parts[0].as_str();
    if crate::models::str_eq(sub, "ids") {
        ActivitiesRequest::Ids
    } else if crate::models::str_eq(sub, "add") {
        if parts.len() < 2 {
            refuse("❓ Syntax: /activities add KV", true)
        } else {
            match parse_kv_args(parts[1].as_str()) {
                None => refuse("❌ Invalid activity specification, see help.", false),
                Some(kv) => ActivitiesRequest::Add(kv),
            }
        }
    } else if crate::models::str_eq(sub, "addsc") {
        if parts.len() < 2 {
            refuse("❓ Syntax: /activities addsc ActivityID ShortcutName Game name", false)
        } else {
            let p3 = splitn(parts[1].as_str(), 3, ' ');
            if p3.len() != 3 {
                refuse(
                    "❌ To add a shortcut specify 1) activity ID, 2) shortcut name and then 3) the game name",
                    false,
                )
            } else {
                let ghost v3 = strings_view(p3@);
                assert(v3[0] == p3@[0]@);
                assert(v3[1] == p3@[1]@);
                assert(v3[2] == p3@[2]@);
                match parse_i32(str_chars(p3[0].as_str()).as_slice()) {
                    None => refuse("❌ ActivityID must be a number", false),
                    Some(link) => ActivitiesRequest::AddShortcut {
                        link,
                        name: p3[1].clone(),
                        game: p3[2].clone(),
                    },
                }
            }
        }
    } else if crate::models::str_eq(sub, "edit") {
        if parts.len() < 2 {
            refuse("❓ Syntax: /activities edit ID KV", true)
        } else {
            let p2 = splitn(parts[1].as_str(), 2, ' ');
            if p2.len() != 2 {
                refuse("❌ To edit first specify Activity ID and then key=value pairs", false)
            } else {
                let ghost v2 = strings_view(p2@);
                assert(v2[0] == p2@[0]@);
                assert(v2[1] == p2@[1]@);
                match parse_i32(str_chars(p2[0].as_str()).as_slice()) {
                    None => refuse("❌ ActivityID must be a number", false),
                    Some(id) => match parse_kv_args(p2[1].as_str()) {
                        None => refuse("❌ Invalid activity specification, see help.", false),
                        Some(kv) => ActivitiesRequest::Edit { id, args: kv },
                    },
                }
            }
        }
    } else if crate::models::str_eq(sub, "delete") {
        if parts.len() < 2 {
            refuse("❓ Syntax: /activities delete ID", true)
        } else {
            match parse_i32(str_chars(parts[1].as_str()).as_slice()) {
                None => refuse("❌ Activity ID must be a number", false),
                Some(id) => ActivitiesRequest::Delete(id),
            }
        }
    } else {
        refuse("❌ Unknown activities operation", true)
    }
}

impl ActivitiesRequest {
    /// Everything but the plain listing is for admins only (see
    /// `activities_step`, which asks for the check before anything else).
    pub fn needs_admin(&self) -> (r: bool)
        ensures
            r == !(self@ is ListAll),
    {
        match self {
            ActivitiesRequest::ListAll => false,
            _ => true,
        }
    }
}

// ---------------------------------------------------------------------------
// Adding an activity
// ---------------------------------------------------------------------------

/// An optional number: `Some(None)` where it is not given, `None` where it is
/// given but is not a number.
pub open spec fn optional_number(v: Option<Seq<char>>) -> Option<Option<i32>> {
    match v {
        None => Some(None),
        Some(t) => match parse_i32_spec(t) {
            Some(n) => Some(Some(n)),
            None => None,
        },
    }
}

/// What `/activities add` stores, and the shortcut (name, game) to add for
/// it where both were given; or the reply for the first field that is
/// missing or not a number (name, min_fireteam_size, max_fireteam_size,
/// min_light, min_level, in that order).
pub open spec fn activity_add_spec(e: Seq<Entry>) -> Result<
    (NewActivityView, Option<(Seq<char>, Seq<char>)>),
    Seq<char>,
> {
    match kv_lookup(e, "name"@) {
        None => Err("❌ Must specify activity name, see help."@),
        Some(name) => match kv_lookup(e, "min_fireteam_size"@) {
            None => Err("❌ Must specify min_fireteam_size, see help."@),
            Some(min_text) => match parse_i32_spec(min_text) {
                None => Err("❌ min_fireteam_size must be a number"@),
                Some(min) => match kv_lookup(e, "max_fireteam_size"@) {
                    None => Err("❌ Must specify max_fireteam_size, see help."@),
                    Some(max_text) => match parse_i32_spec(max_text) {
                        None => Err("❌ max_fireteam_size must be a number"@),
                        Some(max) => match optional_number(kv_lookup(e, "min_light"@)) {
                            None => Err("❌ min_light must be a number"@),
                            Some(light) => match optional_number(kv_lookup(e, "min_level"@)) {
                                None => Err("❌ min_level must be a number"@),
                                Some(level) => Ok(
                                    (
                                        NewActivityView {
                                            name,
                                            mode: kv_lookup(e, "mode"@),
                                            min_fireteam_size: min,
                                            max_fireteam_size: max,
                                            min_light: light,
                                            min_level: level,
                                        },
                                        match (kv_lookup(e, "shortcut"@), kv_lookup(e, "game"@)) {
                                            (Some(sc), Some(g)) => Some((sc, g)),
                                            _ => None,
                                        },
                                    ),
                                ),
                            },
                        },
                    },
                },
            },
        },
    }
}

/// A number given under `key`: `None` where the key is absent.
pub open spec fn given_number(e: Seq<Entry>, key: Seq<char>) -> Option<i32> {
    match kv_lookup(e, key) {
        Some(t) => parse_i32_spec(t),
        None => None,
    }
}

/// An added activity has exactly the fields given: its name and mode are the
/// texts given for them, its fireteam sizes the numbers given, its minimum
/// light and level the numbers given or none where absent; and a shortcut is
/// added where both a shortcut name and a game were given.
pub proof fn lemma_activity_add_reads_fields(
    e: Seq<Entry>,
    a: NewActivityView,
    sc: Option<(Seq<char>, Seq<char>)>,
)
    requires
        activity_add_spec(e) == Ok::<_, Seq<char>>((a, sc)),
    ensures
        kv_lookup(e, "name"@) == Some(a.name),
        a.mode == kv_lookup(e, "mode"@),
        given_number(e, "min_fireteam_size"@) == Some(a.min_fireteam_size),
        given_number(e, "max_fireteam_size"@) == Some(a.max_fireteam_size),
        a.min_light == given_number(e, "min_light"@),
        a.min_level == given_number(e, "min_level"@),
        sc is Some <==> (kv_lookup(e, "shortcut"@) is Some && kv_lookup(e, "game"@) is Some),
        sc matches Some((name, game)) ==> kv_lookup(e, "shortcut"@) == Some(name) && kv_lookup(
            e,
            "game"@,
        ) == Some(game),
{
}

/// An activity is added exactly where a name and both fireteam sizes are
/// given, the sizes are numbers, and the minimum light and level are numbers
/// where given.
pub proof fn lemma_activity_add_accepts(e: Seq<Entry>)
    ensures
        activity_add_spec(e) is Ok <==> {
            &&& kv_lookup(e, "name"@) is Some
            &&& given_number(e, "min_fireteam_size"@) is Some
            &&& given_number(e, "max_fireteam_size"@) is Some
            &&& kv_lookup(e, "min_light"@) is Some ==> given_number(e, "min_light"@) is Some
            &&& kv_lookup(e, "min_level"@) is Some ==> given_number(e, "min_level"@) is Some
        },
{
}

/// An activity to store, and the shortcut (name, game) to add for it once
/// it is stored.
pub struct ActivityPlan {
    pub activity: NewActivity,
    pub shortcut: Option<(String, String)>,
}

impl View for ActivityPlan {
    type V = (NewActivityView, Option<(Seq<char>, Seq<char>)>);

    open spec fn view(&self) -> (NewActivityView, Option<(Seq<char>, Seq<char>)>) {
        (
            self.activity@,
            match self.shortcut {
                Some((s, g)) => Some((s@, g@)),
                None => None,
            },
        )
    }
}

fn optional_number_arg(args: &KvArgs, key: &str) -> (r: Option<Option<i32>>)
    ensures
        r == optional_number(kv_lookup(args@, key@)),
{
    match args.get(key) {
        None => Some(None),
        Some(t) => match parse_i32_str(t.as_str()) {
            Some(n) => Some(Some(n)),
            None => None,
        },
    }
}

fn err_text<T>(text: &str) -> (r: Result<T, String>)
    ensures
        r matches Err(t) && t@ == text@,
{
    Err(text.to_owned())
}

/// Reads the fields of `/activities add` from its `key=value` arguments.
pub fn activity_from_args(args: &KvArgs) -> (r: Result<ActivityPlan, String>)
    ensures
        match r {
            Ok(p) => activity_add_spec(args@) == Ok::<_, Seq<char>>(p@),
            Err(t) => activity_add_spec(args@) == Err::<
                (NewActivityView, Option<(Seq<char>, Seq<char>)>),
                _,
            >(t@),
        },
{
    let name = match args.get("name") {
        None => return err_text("❌ Must specify activity name, see help."),
        Some(n) => n,
    };
    let min_text = match args.get("min_fireteam_size") {
        None => return err_text("❌ Must specify min_fireteam_size, see help."),
        Some(t) => t,
    };
    let min = match parse_i32_str(min_text.as_str()) {
        None => return err_text("❌ min_fireteam_size must be a number"),
        Some(n) => n,
    };
    let max_text = match args.get("max_fireteam_size") {
        None => return err_text("❌ Must specify max_fireteam_size, see help."),
        Some(t) => t,
    };
    let max = match parse_i32_str(max_text.as_str()) {
        None => return err_text("❌ max_fireteam_size must be a number"),
        Some(n) => n,
    };
    let light = match optional_number_arg(args, "min_light") {
        None => return err_text("❌ min_light must be a number"),
        Some(l) => l,
    };
    let level = match optional_number_arg(args, "min_level") {
        None => return err_text("❌ min_level must be a number"),
        Some(l) => l,
    };
    let mode = args.get("mode");
    let shortcut = match (args.get("shortcut"), args.get("game")) {
        (Some(sc), Some(g)) => Some((sc, g)),
        _ => None,
    };
    let plan = ActivityPlan {
        activity: NewActivity {
            name,
            mode,
            min_fireteam_size: min,
            max_fireteam_size: max,
            min_light: light,
            min_level: level,
        },
        shortcut,
    };
    Ok(plan)
}

// ---------------------------------------------------------------------------
// Editing an activity
// ---------------------------------------------------------------------------

/// One `key=value` edit of an activity, or the reply refusing it.
pub open spec fn edit_one(a: ActivityView, key: Seq<char>, val: Seq<char>) -> Result<
    ActivityView,
    Seq<char>,
> {
    if key == "name"@ {
        Ok(ActivityView { name: val, ..a })
    } else if key == "min_fireteam_size"@ {
        match parse_i32_spec(val) {
            Some(n) => Ok(ActivityView { min_fireteam_size: n, ..a }),
            None => Err("❌ min_fireteam_size must be a number"@),
        }
    } else if key == "max_fireteam_size"@ {
        match parse_i32_spec(val) {
            Some(n) => Ok(ActivityView { max_fireteam_size: n, ..a }),
            None => Err("❌ max_fireteam_size must be a number"@),
        }
    } else if key == "min_light"@ {
        match parse_i32_spec(val) {
            Some(n) => Ok(ActivityView { min_light: Some(n), ..a }),
            None => Err("❌ min_light must be a number"@),
        }
    } else if key == "min_level"@ {
        match parse_i32_spec(val) {
            Some(n) => Ok(ActivityView { min_level: Some(n), ..a }),
            None => Err("❌ min_level must be a number"@),
        }
    } else if key == "mode"@ {
        Ok(ActivityView { mode: Some(val), ..a })
    } else {
        Err("❌ Unknown field name "@ + key)
    }
}

/// The edits applied in turn; the first one refused ends the edit with its
/// reply.
pub open spec fn apply_edits(a: ActivityView, e: Seq<Entry>) -> Result<ActivityView, Seq<char>>
    decreases e.len(),
{
    if e.len() == 0 {
        Ok(a)
    } else {
        match edit_one(a, e[0].0, e[0].1) {
            Ok(b) => apply_edits(b, e.drop_first()),
            Err(t) => Err(t),
        }
    }
}

/// The last value given for a key, seen from the front: the rest's last
/// value, else the first entry's where it has the key.
proof fn lemma_last_value_front(e: Seq<Entry>, k: Seq<char>)
    requires
        e.len() > 0,
    ensures
        last_value(e, k) == match last_value(e.drop_first(), k) {
            Some(v) => Some(v),
            None => if e[0].0 == k {
                Some(e[0].1)
            } else {
                None
            },
        },
    decreases e.len(),
{
    let rest = e.drop_first();
    if e.len() > 1 {
        let init = e.drop_last();
        lemma_last_value_front(init, k);
        assert(init.drop_first() =~= rest.drop_last());
        assert(init[0] == e[0]);
        assert(rest.last() == e.last());
        if e.last().0 == k {
            assert(last_value(rest, k) == Some(e.last().1));
        } else {
            assert(last_value(rest, k) == last_value(rest.drop_last(), k));
        }
    } else {
        assert(rest.len() == 0);
        assert(last_value(rest, k) is None);
        assert(e.drop_last().len() == 0);
        assert(last_value(e.drop_last(), k) is None);
        assert(e[0] == e.last());
    }
}

/// The keys that edits know are different texts.
proof fn lemma_edit_keys_distinct()
    ensures
        "name"@ != "mode"@,
        "name"@ != "min_fireteam_size"@,
        "name"@ != "max_fireteam_size"@,
        "name"@ != "min_light"@,
        "name"@ != "min_level"@,
        "mode"@ != "min_fireteam_size"@,
        "mode"@ != "max_fireteam_size"@,
        "mode"@ != "min_light"@,
        "mode"@ != "min_level"@,
        "min_fireteam_size"@ != "max_fireteam_size"@,
        "min_fireteam_size"@ != "min_light"@,
        "min_fireteam_size"@ != "min_level"@,
        "max_fireteam_size"@ != "min_light"@,
        "max_fireteam_size"@ != "min_level"@,
        "min_light"@ != "min_level"@,
{
    reveal_strlit("name");
    reveal_strlit("mode");
    reveal_strlit("min_fireteam_size");
    reveal_strlit("max_fireteam_size");
    reveal_strlit("min_light");
    reveal_strlit("min_level");
    assert("name"@[0] != "mode"@[0]);
    assert("name"@[0] != "min_fireteam_size"@[0]);
    assert("name"@[0] != "max_fireteam_size"@[0]);
    assert("name"@[0] != "min_light"@[0]);
    assert("name"@[0] != "min_level"@[0]);
    assert("mode"@[1] != "min_fireteam_size"@[1]);
    assert("mode"@[1] != "max_fireteam_size"@[1]);
    assert("mode"@[1] != "min_light"@[1]);
    assert("mode"@[1] != "min_level"@[1]);
    assert("min_fireteam_size"@[1] != "max_fireteam_size"@[1]);
    assert("min_fireteam_size"@[4] != "min_light"@[4]);
    assert("min_fireteam_size"@[4] != "min_level"@[4]);
    assert("max_fireteam_size"@[1] != "min_light"@[1]);
    assert("max_fireteam_size"@[1] != "min_level"@[1]);
    assert("min_light"@[5] != "min_level"@[5]);
}

/// A text field after an edit: the last value given for its key, else the
/// old text.
pub open spec fn edited_text(old: Seq<char>, last: Option<Seq<char>>) -> Seq<char> {
    match last {
        Some(v) => v,
        None => old,
    }
}

/// An optional text field after an edit.
pub open spec fn edited_opt_text(old: Option<Seq<char>>, last: Option<Seq<char>>) -> Option<Seq<char>> {
    match last {
        Some(v) => Some(v),
        None => old,
    }
}

/// A number field after an edit: the number last given for its key, else
/// the old number.
pub open spec fn edited_number(old: i32, last: Option<Seq<char>>) -> i32 {
    match last {
        Some(v) => parse_i32_spec(v)->0,
        None => old,
    }
}

/// An optional number field after an edit.
pub open spec fn edited_opt_number(old: Option<i32>, last: Option<Seq<char>>) -> Option<i32> {
    match last {
        Some(v) => Some(parse_i32_spec(v)->0),
        None => old,
    }
}

/// What an accepted edit does to each field.
pub open spec fn edits_set_named_fields(a: ActivityView, e: Seq<Entry>, b: ActivityView) -> bool {
    &&& b.id == a.id
    &&& b.name == edited_text(a.name, last_value(e, "name"@))
    &&& b.mode == edited_opt_text(a.mode, last_value(e, "mode"@))
    &&& b.min_fireteam_size == edited_number(a.min_fireteam_size, last_value(e, "min_fireteam_size"@))
    &&& b.max_fireteam_size == edited_number(a.max_fireteam_size, last_value(e, "max_fireteam_size"@))
    &&& b.min_light == edited_opt_number(a.min_light, last_value(e, "min_light"@))
    &&& b.min_level == edited_opt_number(a.min_level, last_value(e, "min_level"@))
}

/// An accepted edit sets each field named by a key to the value last given
/// for it and leaves every other field (and the id) as it was.
pub proof fn lemma_edits_set_named_fields(a: ActivityView, e: Seq<Entry>, b: ActivityView)
    requires
        apply_edits(a, e) == Ok::<ActivityView, Seq<char>>(b),
    ensures
        edits_set_named_fields(a, e, b),
    decreases e.len(),
{
    if e.len() > 0 {
        lemma_edit_keys_distinct();
        let a1 = edit_one(a, e[0].0, e[0].1)->Ok_0;
        lemma_edits_set_named_fields(a1, e.drop_first(), b);
        lemma_last_value_front(e, "name"@);
        lemma_last_value_front(e, "mode"@);
        lemma_last_value_front(e, "min_fireteam_size"@);
        lemma_last_value_front(e, "max_fireteam_size"@);
        lemma_last_value_front(e, "min_light"@);
        lemma_last_value_front(e, "min_level"@);
    }
}

fn edit_activity_field(a: &mut Activity, key: &str, val: &str) -> (r: Result<(), String>)
    ensures
        match r {
            Ok(_) => edit_one(old(a)@, key@, val@) == Ok::<_, Seq<char>>(final(a)@),
            Err(t) => edit_one(old(a)@, key@, val@) == Err::<ActivityView, _>(t@),
        },
{
    if crate::models::str_eq(key, "name") {
        a.name = val.to_owned();
        Ok(())
    } else if crate::models::str_eq(key, "min_fireteam_size") {
        match parse_i32_str(val) {
            Some(n) => {
                a.min_fireteam_size = n;
                Ok(())
            },
            None => err_text("❌ min_fireteam_size must be a number"),
        }
    } else if crate::models::str_eq(key, "max_fireteam_size") {
        match parse_i32_str(val) {
            Some(n) => {
                a.max_fireteam_size = n;
                Ok(())
            },
            None => err_text("❌ max_fireteam_size must be a number"),
        }
    } else if crate::models::str_eq(key, "min_light") {
        match parse_i32_str(val) {
            Some(n) => {
                a.min_light = Some(n);
                Ok(())
            },
            None => err_text("❌ min_light must be a number"),
        }
    } else if crate::models::str_eq(key, "min_level") {
        match parse_i32_str(val) {
            Some(n) => {
                a.min_level = Some(n);
                Ok(())
            },
            None => err_text("❌ min_level must be a number"),
        }
    } else if crate::models::str_eq(key, "mode") {
        a.mode = Some(val.to_owned());
        Ok(())
    } else {
        Err(concat2("❌ Unknown field name ", key))
    }
}

/// Applies `/activities edit` arguments to the stored activity, in the
/// order the keys were given: the changed activity to store, or the reply
/// for the first key that is unknown or whose value is not a number.
pub fn apply_activity_edits(activity: Activity, args: &KvArgs) -> (r: Result<Activity, String>)
    ensures
        match r {
            Ok(b) => apply_edits(activity@, args@) == Ok::<_, Seq<char>>(b@),
            Err(t) => apply_edits(activity@, args@) == Err::<ActivityView, _>(t@),
        },
{
    let pairs = args.to_pairs();
    let ghost e = args@;
    let mut a = activity;
    let mut i: usize = 0;
    assert(e.skip(0) =~= e);
    while i < pairs.len()
        invariant
            i <= pairs.len(),
            entries_view(pairs@) == e,
            e == args@,
            apply_edits(activity@, e) == apply_edits(a@, e.skip(i as int)),
        decreases pairs.len() - i,
    {
        let ghost before = a@;
        let ghost rest = e.skip(i as int);
        assert(rest[0] == (pairs@[i as int].0@, pairs@[i as int].1@));
        assert(rest.drop_first() =~= e.skip(i + 1));
        match edit_activity_field(&mut a, pairs[i].0.as_str(), pairs[i].1.as_str()) {
            Ok(_) => {},
            Err(t) => {
                return Err(t);
            },
        }
        i = i + 1;
    }
    assert(e.skip(i as int).len() == 0);
    Ok(a)
}

// ---------------------------------------------------------------------------
// Replies
// ---------------------------------------------------------------------------

/// A change made to the stored activities.
#[derive(Clone, Copy, Debug, PartialEq, Eq, Structural)]
pub enum ActivityChange {
    Added,
    Updated,
    Deleted,
}

/// `"✅ Activity {name} added."` (or updated, deleted).
pub open spec fn change_done_text(c: ActivityChange, name: Seq<char>) -> Seq<char> {
    let tail = match c {
        ActivityChange::Added => " added."@,
        ActivityChange::Updated => " updated."@,
        ActivityChange::Deleted => " deleted."@,
    };
    "✅ Activity "@ + name + tail
}

/// The reply where the change failed, with the error's description.
pub open spec fn change_failed_text(c: ActivityChange, error: Seq<char>) -> Seq<char> {
    let head = match c {
        ActivityChange::Added => "❌ Error creating activity. "@,
        ActivityChange::Updated => "❌ Error updating activity. "@,
        ActivityChange::Deleted => "❌ Error deleting activity. "@,
    };
    head + error
}

/// The reply to a change made to `activity` (as stored, or as it was before
/// it was deleted).
pub fn change_done_reply(c: ActivityChange, activity: &Activity) -> (r: String)
    ensures
        r@ == change_done_text(c, activity_name_text(*activity)),
{
    let name = activity.format_name();
    let tail = match c {
        ActivityChange::Added => " added.",
        ActivityChange::Updated => " updated.",
        ActivityChange::Deleted => " deleted.",
    };
    concat3("✅ Activity ", name.as_str(), tail)
}

/// The reply where a change failed with `error`.
pub fn change_failed_reply(c: ActivityChange, error: &str) -> (r: String)
    ensures
        r@ == change_failed_text(c, error@),
{
    let head = match c {
        ActivityChange::Added => "❌ Error creating activity. ",
        ActivityChange::Updated => "❌ Error updating activity. ",
        ActivityChange::Deleted => "❌ Error deleting activity. ",
    };
    concat2(head, error)
}

/// The reply to storing a shortcut: whether it was stored.
pub fn shortcut_saved_reply(saved: bool) -> (r: String)
    ensures
        r@ == (if saved {
            "✅ Shortcut added"@
        } else {
            "❌ Error creating shortcut"@
        }),
{
    if saved {
        "✅ Shortcut added".to_owned()
    } else {
        "❌ Error creating shortcut".to_owned()
    }
}

/// `"Activities:\n\n"`, then `"{id}. {name} {mode}\n"` for each activity.
pub open spec fn activity_ids_text(acts: Seq<Activity>) -> Seq<char>
    decreases acts.len(),
{
    if acts.len() == 0 {
        "Activities:\n\n"@
    } else {
        activity_ids_text(acts.drop_last()) + decimal(acts.last().id as int) + ". "@
            + activity_name_text(acts.last()) + "\n"@
    }
}

/// The reply to `/activities ids`.
pub fn activity_ids_reply(acts: &Vec<Activity>) -> (r: String)
    ensures
        r@ == activity_ids_text(acts@),
{
    let mut v: Vec<char> = Vec::new();
    push_str(&mut v, "Activities:\n\n");
    let mut i: usize = 0;
    while i < acts.len()
        invariant
            i <= acts.len(),
            v@ == activity_ids_text(acts@.take(i as int)),
        decreases acts.len() - i,
    {
        let ghost before = v@;
        extend_chars(&mut v, i64_decimal(acts[i].id as i64).as_slice());
        push_str(&mut v, ". ");
        let name = acts[i].format_name();
        push_str(&mut v, name.as_str());
        push_str(&mut v, "\n");
        proof {
            let t = acts@.take(i + 1);
            assert(t.drop_last() =~= acts@.take(i as int));
            assert(t.last() == acts@[i as int]);
        }
        i = i + 1;
    }
    assert(acts@.take(acts.len() as int) =~= acts@);
    chars_to_string(v.as_slice())
}

/// A row of the `/activities` listing: a game, one of its shortcuts and the
/// activity it stands for.
pub struct ShortcutRow {
    pub game: String,
    pub shortcut: String,
    pub activity: String,
}

/// The rows of the `/activities` listing, one per shortcut with its linked
/// activity, in the given order (by game, then shortcut name).
pub fn shortcut_rows(links: &Vec<(ActivityShortcut, Activity)>) -> (r: Vec<ShortcutRow>)
    ensures
        r@.len() == links@.len(),
        forall|i: int|
            0 <= i < r@.len() ==> {
                &&& (#[trigger] r@[i]).game@ == links@[i].0.game@
                &&& r@[i].shortcut@ == links@[i].0.name@
                &&& r@[i].activity@ == activity_name_text(links@[i].1)
            },
{
    let mut out: Vec<ShortcutRow> = Vec::new();
    let mut i: usize = 0;
    while i < links.len()
        invariant
            i <= links.len(),
            out@.len() == i,
            forall|j: int|
                0 <= j < i ==> {
                    &&& (#[trigger] out@[j]).game@ == links@[j].0.game@
                    &&& out@[j].shortcut@ == links@[j].0.name@
                    &&& out@[j].activity@ == activity_name_text(links@[j].1)
                },
        decreases links.len() - i,
    {
        let row = ShortcutRow {
            game: links[i].0.game.clone(),
            shortcut: links[i].0.name.clone(),
            activity: links[i].1.format_name(),
        };
        out.push(row);
        i = i + 1;
    }
    out
}

// ---------------------------------------------------------------------------
// Handling a request
// ---------------------------------------------------------------------------

/// What is known so far while `/activities` handles a request. `None` marks
/// what has not been looked up (or done) yet.
pub struct ActivitiesFacts {
    pub request: ActivitiesRequest,
    /// Whether the sender is a registered admin.
    pub is_admin: Option<bool>,
    /// The activity looked up by id (to edit, delete, or link a shortcut
    /// to), or `Some(None)` where there is none with that id.
    pub found: Option<Option<Activity>>,
    /// How storing the new (or edited) activity went: the activity as
    /// stored, or the store's error.
    pub stored: Option<Result<Activity, String>>,
    /// How deleting the activity went.
    pub deleted: Option<Result<(), String>>,
    /// Whether the new activity has been announced.
    pub announced: bool,
    /// Whether storing the shortcut succeeded.
    pub shortcut_saved: Option<bool>,
}

/// The next step in handling `/activities`.
#[derive(Clone, Copy, Debug, PartialEq, Eq, Structural)]
pub enum ActivitiesStep {
    /// List the shortcuts (the one request open to everyone).
    ListShortcuts,
    /// Find out whether the sender is an admin.
    CheckAdmin,
    /// Reply that the sender is not an admin; nothing is changed.
    NotAdmin,
    /// List the activities with their ids.
    ListIds,
    /// Reply with the refusal's text (then show the usage where the
    /// request says so).
    Refuse,
    /// Reply why the `key=value` fields were refused.
    BadFields,
    /// Look up the activity with this id.
    LookUp(i32),
    /// Reply that there is no activity with this id.
    NotFound(i32),
    /// Store the new activity (see `activity_from_args`).
    Insert,
    /// Store the edited activity (see `apply_activity_edits`).
    Update,
    /// Delete the activity with this id.
    Delete(i32),
    /// Reply that the change failed, with the store's error.
    StoreFailed(ActivityChange),
    /// Announce the new activity, then go on.
    Announce,
    /// Store a shortcut to the activity with this id.
    StoreShortcut(i32),
    /// Reply whether the shortcut was stored.
    ShortcutSaved(bool),
    /// Reply that the change was made.
    Done(ActivityChange),
    /// Nothing more to do.
    Finished,
}

/// The steps that change what is stored.
pub open spec fn changes_store(s: ActivitiesStep) -> bool {
    ||| s is Insert
    ||| s is Update
    ||| s is Delete
    ||| s is StoreShortcut
}

/// Adding a shortcut to the activity with id `link`: look it up, refuse
/// where there is none, store the shortcut and report how that went.
pub open spec fn shortcut_step(f: ActivitiesFacts, link: i32) -> ActivitiesStep {
    match f.found {
        None => ActivitiesStep::LookUp(link),
        Some(None) => ActivitiesStep::NotFound(link),
        Some(Some(_)) => match f.shortcut_saved {
            None => ActivitiesStep::StoreShortcut(link),
            Some(b) => ActivitiesStep::ShortcutSaved(b),
        },
    }
}

/// The next step in handling `/activities`, given what is known. The plain
/// listing is open to everyone; any other request (a malformed one too)
/// first needs the sender to be an admin. Then: list the ids; refuse a
/// malformed request; add an activity (refusing bad fields), announce it and
/// add its shortcut where one was given; add a shortcut to an existing
/// activity; edit an activity (refusing an unknown id or bad fields); or
/// delete one (refusing an unknown id).
pub open spec fn activities_step_spec(f: ActivitiesFacts) -> ActivitiesStep {
    match f.request@ {
        ActivitiesRequestView::ListAll => ActivitiesStep::ListShortcuts,
        _ => match f.is_admin {
            None => ActivitiesStep::CheckAdmin,
            Some(false) => ActivitiesStep::NotAdmin,
            Some(true) => match f.request@ {
                ActivitiesRequestView::Add(kv) => match activity_add_spec(kv) {
                    Err(_) => ActivitiesStep::BadFields,
                    Ok((_, shortcut)) => match f.stored {
                        None => ActivitiesStep::Insert,
                        Some(Err(_)) => ActivitiesStep::StoreFailed(ActivityChange::Added),
                        Some(Ok(a)) => if !f.announced {
                            ActivitiesStep::Announce
                        } else if shortcut is Some {
                            shortcut_step(f, a.id)
                        } else {
                            ActivitiesStep::Finished
                        },
                    },
                },
                ActivitiesRequestView::AddShortcut(link, _, _) => shortcut_step(f, link),
                ActivitiesRequestView::Edit(id, kv) => match f.found {
                    None => ActivitiesStep::LookUp(id),
                    Some(None) => ActivitiesStep::NotFound(id),
                    Some(Some(a)) => match apply_edits(a@, kv) {
                        Err(_) => ActivitiesStep::BadFields,
                        Ok(_) => match f.stored {
                            None => ActivitiesStep::Update,
                            Some(Err(_)) => ActivitiesStep::StoreFailed(ActivityChange::Updated),
                            Some(Ok(_)) => ActivitiesStep::Done(ActivityChange::Updated),
                        },
                    },
                },
                ActivitiesRequestView::Delete(id) => match f.found {
                    None => ActivitiesStep::LookUp(id),
                    Some(None) => ActivitiesStep::NotFound(id),
                    Some(Some(_)) => match f.deleted {
                        None => ActivitiesStep::Delete(id),
                        Some(Err(_)) => ActivitiesStep::StoreFailed(ActivityChange::Deleted),
                        Some(Ok(_)) => ActivitiesStep::Done(ActivityChange::Deleted),
                    },
                },
                ActivitiesRequestView::Ids => ActivitiesStep::ListIds,
                _ => ActivitiesStep::Refuse,
            },
        },
    }
}

fn copy_activity(a: &Activity) -> (r: Activity)
    ensures
        r@ == a@,
{
    Activity {
        id: a.id,
        name: a.name.clone(),
        mode: match &a.mode {
            Some(m) => Some(m.clone()),
            None => None,
        },
        min_fireteam_size: a.min_fireteam_size,
        max_fireteam_size: a.max_fireteam_size,
        min_light: a.min_light,
        min_level: a.min_level,
    }
}

fn shortcut_step_exec(f: &ActivitiesFacts, link: i32) -> (r: ActivitiesStep)
    ensures
        r == shortcut_step(*f, link),
{
    match &f.found {
        None => ActivitiesStep::LookUp(link),
        Some(None) => ActivitiesStep::NotFound(link),
        Some(Some(_)) => match f.shortcut_saved {
            None => ActivitiesStep::StoreShortcut(link),
            Some(b) => ActivitiesStep::ShortcutSaved(b),
        },
    }
}

/// The next step in handling `/activities`. A sender who is not an admin
/// gets the refusal, and nothing is stored, for every request but the plain
/// listing; an id that no activity has gets the not-found reply.
pub fn activities_step(f: &ActivitiesFacts) -> (r: ActivitiesStep)
    ensures
        r == activities_step_spec(*f),
        !(f.request@ is ListAll) && f.is_admin == Some(false) ==> r == ActivitiesStep::NotAdmin,
        !(f.request@ is ListAll) && f.is_admin != Some(true) ==> !changes_store(r),
        changes_store(r) ==> f.is_admin == Some(true),
        f.is_admin == Some(true) && f.found == Some(None::<Activity>) ==> match f.request@ {
            ActivitiesRequestView::Edit(id, _) => r == ActivitiesStep::NotFound(id),
            ActivitiesRequestView::Delete(id) => r == ActivitiesStep::NotFound(id),
            ActivitiesRequestView::AddShortcut(link, _, _) => r == ActivitiesStep::NotFound(link),
            _ => true,
        },
{
    if !f.request.needs_admin() {
        return ActivitiesStep::ListShortcuts;
    }
    match f.is_admin {
        None => return ActivitiesStep::CheckAdmin,
        Some(false) => return ActivitiesStep::NotAdmin,
        Some(true) => {},
    }
    match &f.request {
        ActivitiesRequest::Add(kv) => match activity_from_args(kv) {
            Err(_) => ActivitiesStep::BadFields,
            Ok(plan) => match &f.stored {
                None => ActivitiesStep::Insert,
                Some(Err(_)) => ActivitiesStep::StoreFailed(ActivityChange::Added),
                Some(Ok(a)) => if !f.announced {
                    ActivitiesStep::Announce
                } else if plan.shortcut.is_some() {
                    shortcut_step_exec(f, a.id)
                } else {
                    ActivitiesStep::Finished
                },
            },
        },
        ActivitiesRequest::AddShortcut { link, .. } => shortcut_step_exec(f, *link),
        ActivitiesRequest::Edit { id, args } => match &f.found {
            None => ActivitiesStep::LookUp(*id),
            Some(None) => ActivitiesStep::NotFound(*id),
            Some(Some(a)) => match apply_activity_edits(copy_activity(a), args) {
                Err(_) => ActivitiesStep::BadFields,
                Ok(_) => match &f.stored {
                    None => ActivitiesStep::Update,
                    Some(Err(_)) => ActivitiesStep::StoreFailed(ActivityChange::Updated),
                    Some(Ok(_)) => ActivitiesStep::Done(ActivityChange::Updated),
                },
            },
        },
        ActivitiesRequest::Delete(id) => match &f.found {
            None => ActivitiesStep::LookUp(*id),
            Some(None) => ActivitiesStep::NotFound(*id),
            Some(Some(_)) => match &f.deleted {
                None => ActivitiesStep::Delete(*id),
                Some(Err(_)) => ActivitiesStep::StoreFailed(ActivityChange::Deleted),
                Some(Ok(_)) => ActivitiesStep::Done(ActivityChange::Deleted),
            },
        },
        ActivitiesRequest::Ids => ActivitiesStep::ListIds,
        _ => ActivitiesStep::Refuse,
    }
}

/// The reply that goes with a step of `/activities`, where it has one: the
/// not-admin refusal, the malformed request's text, why the fields were
/// refused, the not-found reply, the store's failure, the announcement of
/// the new activity, how storing the shortcut went, or the change made.
pub open spec fn activities_reply_text(f: ActivitiesFacts, s: ActivitiesStep) -> Option<Seq<char>> {
    match s {
        ActivitiesStep::NotAdmin => Some("❌ You are not admin"@),
        ActivitiesStep::Refuse => match f.request@ {
            ActivitiesRequestView::Refuse(t, _) => Some(t),
            _ => None,
        },
        ActivitiesStep::BadFields => match f.request@ {
            ActivitiesRequestView::Add(kv) => match activity_add_spec(kv) {
                Err(t) => Some(t),
                Ok(_) => None,
            },
            ActivitiesRequestView::Edit(_, kv) => match f.found {
                Some(Some(a)) => match apply_edits(a@, kv) {
                    Err(t) => Some(t),
                    Ok(_) => None,
                },
                _ => None,
            },
            _ => None,
        },
        ActivitiesStep::NotFound(id) => Some(activity_not_found_text(id)),
        ActivitiesStep::StoreFailed(c) => match c {
            ActivityChange::Deleted => match f.deleted {
                Some(Err(e)) => Some(change_failed_text(c, e@)),
                _ => None,
            },
            _ => match f.stored {
                Some(Err(e)) => Some(change_failed_text(c, e@)),
                _ => None,
            },
        },
        ActivitiesStep::Announce => match f.stored {
            Some(Ok(a)) => Some(change_done_text(ActivityChange::Added, activity_name_text(a))),
            _ => None,
        },
        ActivitiesStep::ShortcutSaved(b) => Some(
            if b {
                "✅ Shortcut added"@
            } else {
                "❌ Error creating shortcut"@
            },
        ),
        ActivitiesStep::Done(c) => match c {
            ActivityChange::Deleted => match f.found {
                Some(Some(a)) => Some(change_done_text(c, activity_name_text(a))),
                _ => None,
            },
            _ => match f.stored {
                Some(Ok(a)) => Some(change_done_text(c, activity_name_text(a))),
                _ => None,
            },
        },
        _ => None,
    }
}

fn some_text(t: String) -> (r: Option<String>)
    ensures
        r matches Some(u) && u@ == t@,
{
    Some(t)
}

/// The reply that goes with a step of `/activities`, where it has one.
pub fn activities_reply(f: &ActivitiesFacts, s: ActivitiesStep) -> (r: Option<String>)
    ensures
        match r {
            Some(t) => activities_reply_text(*f, s) == Some(t@),
            None => activities_reply_text(*f, s) is None,
        },
{
    match s {
        ActivitiesStep::NotAdmin => some_text(crate::commands::not_admin_reply()),
        ActivitiesStep::Refuse => match &f.request {
            ActivitiesRequest::Refuse { text, .. } => some_text(text.clone()),
            _ => None,
        },
        ActivitiesStep::BadFields => match &f.request {
            ActivitiesRequest::Add(kv) => match activity_from_args(kv) {
                Err(t) => some_text(t),
                Ok(_) => None,
            },
            ActivitiesRequest::Edit { args, .. } => match &f.found {
                Some(Some(a)) => match apply_activity_edits(copy_activity(a), args) {
                    Err(t) => some_text(t),
                    Ok(_) => None,
                },
                _ => None,
            },
            _ => None,
        },
        ActivitiesStep::NotFound(id) => some_text(activity_not_found_reply(id)),
        ActivitiesStep::StoreFailed(c) => match c {
            ActivityChange::Deleted => match &f.deleted {
                Some(Err(e)) => some_text(change_failed_reply(c, e.as_str())),
                _ => None,
            },
            _ => match &f.stored {
                Some(Err(e)) => some_text(change_failed_reply(c, e.as_str())),
                _ => None,
            },
        },
        ActivitiesStep::Announce => match &f.stored {
            Some(Ok(a)) => some_text(change_done_reply(ActivityChange::Added, a)),
            _ => None,
        },
        ActivitiesStep::ShortcutSaved(b) => some_text(shortcut_saved_reply(b)),
        ActivitiesStep::Done(c) => match c {
            ActivityChange::Deleted => match &f.found {
                Some(Some(a)) => some_text(change_done_reply(c, a)),
                _ => None,
            },
            _ => match &f.stored {
                Some(Ok(a)) => some_text(change_done_reply(c, a)),
                _ => None,
            },
        },
        _ => None,
    }
}

/// Only an admin changes the stored activities: for every request but the
/// plain listing, a sender who is not an admin is answered "❌ You are not
/// admin" and no step that stores, updates or deletes anything is taken.
pub proof fn lemma_activities_need_admin(f: ActivitiesFacts)
    requires
        !(f.request@ is ListAll),
        f.is_admin == Some(false),
    ensures
        activities_step_spec(f) == ActivitiesStep::NotAdmin,
        !changes_store(activities_step_spec(f)),
        activities_reply_text(f, activities_step_spec(f)) == Some("❌ You are not admin"@),
{
}

/// Editing, deleting, or adding a shortcut to, an activity that does not
/// exist is answered "❌ Activity {id} was not found." and changes nothing.
pub proof fn lemma_activities_unknown_id(f: ActivitiesFacts, id: i32)
    requires
        f.is_admin == Some(true),
        f.found == Some(None::<Activity>),
        ({
            ||| f.request@ matches ActivitiesRequestView::Edit(i, _) && i == id
            ||| f.request@ matches ActivitiesRequestView::Delete(i) && i == id
            ||| f.request@ matches ActivitiesRequestView::AddShortcut(i, _, _) && i == id
        }),
    ensures
        activities_step_spec(f) == ActivitiesStep::NotFound(id),
        activities_reply_text(f, activities_step_spec(f)) == Some(activity_not_found_text(id)),
{
}

} // verus!
