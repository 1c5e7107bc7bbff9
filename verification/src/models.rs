//! The bot's records (activities, alerts, guardians, planned activities and
//! their members) and how they are shown to users. Times are Unix timestamps
//! in whole seconds.

use vstd::prelude::*;
use crate::matching::opt_chars;
use crate::numbers::{decimal, i64_decimal, nat_digits, u64_digits};
use crate::text::{chars_eq, chars_to_string, contains_seq, push_str, str_chars, str_contains};

verus! {

/// Equality of two string slices.
pub fn str_eq(a: &str, b: &str) -> (r: bool)
    ensures
        r == (a@ == b@),
{
    let ac = str_chars(a);
    let bc = str_chars(b);
    chars_eq(ac.as_slice(), bc.as_slice())
}

/// The text of an optional string, empty where there is none.
pub open spec fn text_or_empty(o: Option<String>) -> Seq<char> {
    match o {
        Some(s) => s@,
        None => Seq::empty(),
    }
}

/// A link between a shortcut name and an activity.
pub struct ActivityShortcut {
    pub id: i32,
    pub name: String,
    pub game: String,
    pub link: i32,
}

/// A shortcut about to be stored.
pub struct NewActivityShortcut {
    pub name: String,
    pub game: String,
    pub link: i32,
}

/// A kind of activity a group can be formed for.
pub struct Activity {
    pub id: i32,
    pub name: String,
    pub mode: Option<String>,
    pub min_fireteam_size: i32,
    pub max_fireteam_size: i32,
    pub min_light: Option<i32>,
    pub min_level: Option<i32>,
}

/// An activity about to be stored.
pub struct NewActivity {
    pub name: String,
    pub mode: Option<String>,
    pub min_fireteam_size: i32,
    pub max_fireteam_size: i32,
    pub min_light: Option<i32>,
    pub min_level: Option<i32>,
}

/// An activity's fields as values.
pub struct ActivityView {
    pub id: i32,
    pub name: Seq<char>,
    pub mode: Option<Seq<char>>,
    pub min_fireteam_size: i32,
    pub max_fireteam_size: i32,
    pub min_light: Option<i32>,
    pub min_level: Option<i32>,
}

impl View for Activity {
    type V = ActivityView;

    open spec fn view(&self) -> ActivityView {
        ActivityView {
            id: self.id,
            name: self.name@,
            mode: match self.mode {
                Some(m) => Some(m@),
                None => None,
            },
            min_fireteam_size: self.min_fireteam_size,
            max_fireteam_size: self.max_fireteam_size,
            min_light: self.min_light,
            min_level: self.min_level,
        }
    }
}

/// A new activity's fields as values.
pub struct NewActivityView {
    pub name: Seq<char>,
    pub mode: Option<Seq<char>>,
    pub min_fireteam_size: i32,
    pub max_fireteam_size: i32,
    pub min_light: Option<i32>,
    pub min_level: Option<i32>,
}

impl View for NewActivity {
    type V = NewActivityView;

    open spec fn view(&self) -> NewActivityView {
        NewActivityView {
            name: self.name@,
            mode: match self.mode {
                Some(m) => Some(m@),
                None => None,
            },
            min_fireteam_size: self.min_fireteam_size,
            max_fireteam_size: self.max_fireteam_size,
            min_light: self.min_light,
            min_level: self.min_level,
        }
    }
}

/// `"{name} {mode}"`, with an empty mode where there is none.
pub open spec fn activity_name_text(a: Activity) -> Seq<char> {
    a.name@ + " "@ + text_or_empty(a.mode)
}

impl Activity {
    /// `"{name} {mode}"`, with an empty mode where there is none.
    pub fn format_name(&self) -> (r: String)
        ensures
            r@ == activity_name_text(*self),
    {
        let mut v: Vec<char> = Vec::new();
        push_str(&mut v, self.name.as_str());
        push_str(&mut v, " ");
        match &self.mode {
            Some(m) => push_str(&mut v, m.as_str()),
            None => {},
        }
        chars_to_string(v.as_slice())
    }
}

// ---------------------------------------------------------------------------
// Alerts
// ---------------------------------------------------------------------------

/// A game alert.
pub struct Alert {
    pub id: i32,
    pub guid: String,
    pub title: String,
    pub kind: String,
    pub start_date: i64,
    pub expiry_date: Option<i64>,
    pub faction: Option<String>,
    pub flavor: Option<String>,
}

/// An alert about to be stored.
pub struct NewAlert {
    pub guid: String,
    pub title: String,
    pub kind: Option<String>,
    pub start_date: Option<i64>,
    pub expiry_date: Option<i64>,
    pub faction: Option<String>,
    pub flavor: Option<String>,
}

/// The pattern of a credits reward title: digits, then `cr` and a space.
pub open spec fn credits_pattern() -> Seq<char> {
    "^\\d+cr "@
}

/// What compiling `pattern` and searching `text` with it gives: `None` where
/// the pattern does not compile, else whether it matches.
pub uninterp spec fn regex_finds(pattern: Seq<char>, text: Seq<char>) -> Option<bool>;

/// Calls `regex::Regex::new(pattern)` and, where that succeeds,
/// `Regex::is_match(text)`. The claim: the outcome is the named function
/// `regex_finds` of the two strings (`None` for a pattern that does not
/// compile); what a regular expression matches is not restated here.
#[verifier::external_body]
fn regex_is_match(pattern: &str, text: &str) -> (r: Option<bool>)
    ensures
        r == regex_finds(pattern@, text@),
{
    match regex::Regex::new(pattern) {
        Ok(re) => Some(re.is_match(text)),
        Err(_) => None,
    }
}

/// The icon for an alert's kind.
pub open spec fn type_icon_text(kind: Seq<char>) -> Seq<char> {
    if kind == "Alert"@ {
        "✊"@
    } else if kind == "Invasion"@ {
        "🐛"@
    } else if kind == "Outbreak"@ {
        "⛓"@
    } else {
        "⁉️ "@ + kind
    }
}

/// The icon for an alert's reward, by the first reward class that applies.
pub open spec fn reward_icon_text(title: Seq<char>) -> Seq<char> {
    if contains_seq(title, "Forma"@) {
        "⚖"@
    } else if contains_seq(title, "Nitain Extract"@) {
        "✨"@
    } else if contains_seq(title, "Orokin Reactor"@) {
        "🏮"@
    } else if contains_seq(title, "ENDO"@) {
        "🔮"@
    } else if contains_seq(title, "(Blueprint)"@) {
        "🗿"@
    } else if contains_seq(title, "(Resource)"@) {
        "🔋"@
    } else if contains_seq(title, "(Mod)"@) {
        "⚙"@
    } else if contains_seq(title, "(Aura)"@) {
        "❄️"@
    } else if regex_finds(credits_pattern(), title) == Some(true) {
        "💰"@
    } else {
        ""@
    }
}

/// An alert matters if it rewards Forma, Nitain or an Orokin Reactor, or
/// lasts at least ninety minutes.
pub open spec fn alert_is_important(a: Alert) -> bool {
    ||| contains_seq(a.title@, "Forma"@)
    ||| contains_seq(a.title@, "Nitain Extract"@)
    ||| contains_seq(a.title@, "Orokin Reactor"@)
    ||| (a.expiry_date is Some && a.expiry_date->0 - a.start_date >= 90 * 60)
}

impl Alert {
    /// Whether the alert deserves attention.
    pub fn is_important(&self) -> (r: bool)
        ensures
            r == alert_is_important(*self),
    {
        self.is_forma() || self.is_nitain() || self.is_orokin_reactor() || match self.expiry_date {
            Some(e) => (e as i128) - (self.start_date as i128) >= 5400,
            None => false,
        }
    }

    /// The icon for the alert's kind.
    pub fn type_icon(&self) -> (r: String)
        ensures
            r@ == type_icon_text(self.kind@),
    {
        let k = self.kind.as_str();
        if str_eq(k, "Alert") {
            "✊".to_owned()
        } else if str_eq(k, "Invasion") {
            "🐛".to_owned()
        } else if str_eq(k, "Outbreak") {
            "⛓".to_owned()
        } else {
            let mut v: Vec<char> = Vec::new();
            push_str(&mut v, "⁉️ ");
            push_str(&mut v, k);
            chars_to_string(v.as_slice())
        }
    }

    /// The icon for the alert's reward.
    pub fn reward_icon(&self) -> (r: String)
        ensures
            r@ == reward_icon_text(self.title@),
    {
        let s = if self.is_forma() {
            "⚖"
        } else if self.is_nitain() {
            "✨"
        } else if self.is_orokin_reactor() {
            "🏮"
        } else if self.is_endo() {
            "🔮"
        } else if self.is_blueprint() {
            "🗿"
        } else if self.is_resource() {
            "🔋"
        } else if self.is_mod() {
            "⚙"
        } else if self.is_aura() {
            "❄️"
        } else if self.is_credits() {
            "💰"
        } else {
            ""
        };
        s.to_owned()
    }

    pub fn is_blueprint(&self) -> (r: bool)
        ensures
            r == contains_seq(self.title@, "(Blueprint)"@),
    {
        str_contains(self.title.as_str(), "(Blueprint)")
    }

    pub fn is_resource(&self) -> (r: bool)
        ensures
            r == contains_seq(self.title@, "(Resource)"@),
    {
        str_contains(self.title.as_str(), "(Resource)")
    }

    pub fn is_mod(&self) -> (r: bool)
        ensures
            r == contains_seq(self.title@, "(Mod)"@),
    {
        str_contains(self.title.as_str(), "(Mod)")
    }

    pub fn is_aura(&self) -> (r: bool)
        ensures
            r == contains_seq(self.title@, "(Aura)"@),
    {
        str_contains(self.title.as_str(), "(Aura)")
    }

    /// Whether the title starts with a credits amount (`^\d+cr `).
    pub fn is_credits(&self) -> (r: bool)
        ensures
            r == (regex_finds(credits_pattern(), self.title@) == Some(true)),
    {
        match regex_is_match("^\\d+cr ", self.title.as_str()) {
            Some(b) => b,
            None => false,
        }
    }

    pub fn is_forma(&self) -> (r: bool)
        ensures
            r == contains_seq(self.title@, "Forma"@),
    {
        str_contains(self.title.as_str(), "Forma")
    }

    pub fn is_nitain(&self) -> (r: bool)
        ensures
            r == contains_seq(self.title@, "Nitain Extract"@),
    {
        str_contains(self.title.as_str(), "Nitain Extract")
    }

    pub fn is_orokin_reactor(&self) -> (r: bool)
        ensures
            r == contains_seq(self.title@, "Orokin Reactor"@),
    {
        str_contains(self.title.as_str(), "Orokin Reactor")
    }

    pub fn is_endo(&self) -> (r: bool)
        ensures
            r == contains_seq(self.title@, "ENDO"@),
    {
        str_contains(self.title.as_str(), "ENDO")
    }

    /// `"{type icon} {reward icon} {title}"`, as the alert is displayed.
    pub fn to_string(&self) -> (r: String)
        ensures
            r@ == type_icon_text(self.kind@) + " "@ + reward_icon_text(self.title@) + " "@
                + self.title@,
    {
        let mut v: Vec<char> = Vec::new();
        let t = self.type_icon();
        let w = self.reward_icon();
        push_str(&mut v, t.as_str());
        push_str(&mut v, " ");
        push_str(&mut v, w.as_str());
        push_str(&mut v, " ");
        push_str(&mut v, self.title.as_str());
        chars_to_string(v.as_slice())
    }
}

// ---------------------------------------------------------------------------
// Guardians
// ---------------------------------------------------------------------------

/// A registered player: Telegram account, PSN name and roles.
pub struct Guardian {
    pub id: i32,
    pub telegram_name: String,
    pub telegram_id: i64,
    pub psn_name: String,
    pub email: Option<String>,
    pub psn_clan: Option<String>,
    pub created_at: i64,
    pub updated_at: i64,
    pub deleted_at: Option<i64>,
    pub pending_activation_code: Option<String>,
    pub is_admin: bool,
    pub is_superadmin: bool,
}

/// A guardian's fields as values.
pub struct GuardianView {
    pub id: i32,
    pub telegram_name: Seq<char>,
    pub telegram_id: i64,
    pub psn_name: Seq<char>,
    pub email: Option<Seq<char>>,
    pub psn_clan: Option<Seq<char>>,
    pub created_at: i64,
    pub updated_at: i64,
    pub deleted_at: Option<i64>,
    pub pending_activation_code: Option<Seq<char>>,
    pub is_admin: bool,
    pub is_superadmin: bool,
}

impl View for Guardian {
    type V = GuardianView;

    open spec fn view(&self) -> GuardianView {
        GuardianView {
            id: self.id,
            telegram_name: self.telegram_name@,
            telegram_id: self.telegram_id,
            psn_name: self.psn_name@,
            email: opt_chars(self.email),
            psn_clan: opt_chars(self.psn_clan),
            created_at: self.created_at,
            updated_at: self.updated_at,
            deleted_at: self.deleted_at,
            pending_activation_code: opt_chars(self.pending_activation_code),
            is_admin: self.is_admin,
            is_superadmin: self.is_superadmin,
        }
    }
}

/// A guardian about to be stored.
pub struct NewGuardian {
    pub telegram_name: String,
    pub telegram_id: i64,
    pub psn_name: String,
}

/// `"{psn} (t.me/{telegram})"`.
pub open spec fn guardian_name_text(g: Guardian) -> Seq<char> {
    g.psn_name@ + " (t.me/"@ + g.telegram_name@ + ")"@
}

impl Guardian {
    /// `"{psn} (t.me/{telegram})"`.
    pub fn format_name(&self) -> (r: String)
        ensures
            r@ == guardian_name_text(*self),
    {
        let mut v: Vec<char> = Vec::new();
        push_str(&mut v, self.psn_name.as_str());
        push_str(&mut v, " (t.me/");
        push_str(&mut v, self.telegram_name.as_str());
        push_str(&mut v, ")");
        chars_to_string(v.as_slice())
    }

    /// The Telegram and PSN names.
    pub fn names(&self) -> (r: (String, String))
        ensures
            r.0@ == self.telegram_name@,
            r.1@ == self.psn_name@,
    {
        (self.telegram_name.clone(), self.psn_name.clone())
    }

    /// How a guardian is displayed: the same text as `format_name`.
    pub fn to_string(&self) -> (r: String)
        ensures
            r@ == guardian_name_text(*self),
    {
        self.format_name()
    }
}

// ---------------------------------------------------------------------------
// Planned activities
// ---------------------------------------------------------------------------

/// A group formed for an activity at a start time.
pub struct PlannedActivity {
    pub id: i32,
    pub author_id: i32,
    pub activity_id: i32,
    pub details: Option<String>,
    pub start: i64,
}

/// A planned activity about to be stored.
pub struct NewPlannedActivity {
    pub author_id: i32,
    pub activity_id: i32,
    pub start: i64,
}

/// A guardian's membership in a planned activity.
pub struct PlannedActivityMember {
    pub id: i32,
    pub planned_activity_id: i32,
    pub user_id: i32,
    pub added: i64,
}

/// A membership about to be stored.
pub struct NewPlannedActivityMember {
    pub planned_activity_id: i32,
    pub user_id: i32,
    pub added: i64,
}

/// A member as shown in an activity listing.
pub struct ActivityMemberTemplate {
    pub psn_name: String,
    pub telegram_name: String,
    pub icon: String,
}

/// A planned activity as shown in listings.
pub struct PlannedActivityTemplate {
    pub id: i32,
    pub name: String,
    pub details: String,
    pub members: Vec<ActivityMemberTemplate>,
    pub count: usize,
    pub time: String,
    pub fireteam_full: bool,
    pub fireteam_joined: bool,
    pub join_link: String,
    pub leave_link: String,
}

/// The command that joins planned activity `id`.
pub open spec fn join_link_text(id: i32) -> Seq<char> {
    "/join"@ + decimal(id as int)
}

/// The command that leaves planned activity `id`.
pub open spec fn cancel_link_text(id: i32) -> Seq<char> {
    "/cancel"@ + decimal(id as int)
}

/// The fireteam is full once its members reach the activity's maximum.
pub open spec fn fireteam_is_full(members: nat, max_size: i32) -> bool {
    members >= (max_size as usize) as nat
}

/// How many more guardians can join.
pub open spec fn free_slots(members: nat, max_size: i32) -> int {
    (max_size as usize) as int - members
}

/// The prompt under a listed activity.
pub open spec fn join_prompt_text(id: i32, members: nat, max_size: i32) -> Seq<char> {
    if fireteam_is_full(members, max_size) {
        "This activity fireteam is full."@
    } else {
        "Enter `"@ + join_link_text(id) + "` to join this group. Up to "@ + nat_digits(
            free_slots(members, max_size) as nat,
        ) + " more can join."@
    }
}

/// The details followed by a line break, or nothing.
pub open spec fn details_text(details: Option<String>) -> Seq<char> {
    match details {
        Some(d) => d@ + "\n"@,
        None => Seq::empty(),
    }
}

/// Texts joined with a separator between consecutive ones.
pub open spec fn join_texts(parts: Seq<Seq<char>>, sep: Seq<char>) -> Seq<char>
    decreases parts.len(),
{
    if parts.len() == 0 {
        Seq::empty()
    } else if parts.len() == 1 {
        parts[0]
    } else {
        join_texts(parts.drop_last(), sep) + sep + parts.last()
    }
}

/// The display names of the given guardians.
pub open spec fn guardian_names(gs: Seq<Guardian>) -> Seq<Seq<char>> {
    gs.map_values(|g: Guardian| guardian_name_text(g))
}

impl PlannedActivity {
    /// `"/join{id}"`.
    pub fn join_link(&self) -> (r: String)
        ensures
            r@ == join_link_text(self.id),
    {
        let mut v: Vec<char> = Vec::new();
        push_str(&mut v, "/join");
        let d = i64_decimal(self.id as i64);
        crate::text::extend_chars(&mut v, d.as_slice());
        chars_to_string(v.as_slice())
    }

    /// `"/cancel{id}"`.
    pub fn cancel_link(&self) -> (r: String)
        ensures
            r@ == cancel_link_text(self.id),
    {
        let mut v: Vec<char> = Vec::new();
        push_str(&mut v, "/cancel");
        let d = i64_decimal(self.id as i64);
        crate::text::extend_chars(&mut v, d.as_slice());
        chars_to_string(v.as_slice())
    }

    /// Whether `members_count` members fill the fireteam of `activity`.
    pub fn is_full(&self, members_count: usize, activity: &Activity) -> (r: bool)
        ensures
            r == fireteam_is_full(members_count as nat, activity.max_fireteam_size),
    {
        members_count >= activity.max_fireteam_size as usize
    }

    /// Whether `members_count` members are still fewer than the activity's
    /// minimum fireteam.
    pub fn requires_more_members(&self, members_count: usize, activity: &Activity) -> (r: bool)
        ensures
            r == ((members_count as nat) < (activity.min_fireteam_size as usize) as nat),
    {
        members_count < activity.min_fireteam_size as usize
    }

    /// The join prompt: the fireteam is full, or how to join and how many
    /// more can.
    pub fn join_prompt(&self, members_count: usize, activity: &Activity) -> (r: String)
        ensures
            r@ == join_prompt_text(self.id, members_count as nat, activity.max_fireteam_size),
    {
        if self.is_full(members_count, activity) {
            "This activity fireteam is full.".to_owned()
        } else {
            let count = activity.max_fireteam_size as usize - members_count;
            let mut v: Vec<char> = Vec::new();
            push_str(&mut v, "Enter `");
            let link = self.join_link();
            push_str(&mut v, link.as_str());
            push_str(&mut v, "` to join this group. Up to ");
            let d = u64_digits(count as u64);
            crate::text::extend_chars(&mut v, d.as_slice());
            push_str(&mut v, " more can join.");
            chars_to_string(v.as_slice())
        }
    }

    /// The details followed by a line break, or nothing.
    pub fn format_details(&self) -> (r: String)
        ensures
            r@ == details_text(self.details),
    {
        match &self.details {
            Some(d) => {
                let mut v: Vec<char> = Vec::new();
                push_str(&mut v, d.as_str());
                push_str(&mut v, "\n");
                chars_to_string(v.as_slice())
            },
            None => String::new(),
        }
    }

    /// The members' display names (given as their guardians, in membership
    /// order) joined by `joiner`.
    pub fn members_formatted(&self, guardians: &Vec<Guardian>, joiner: &str) -> (r: String)
        ensures
            r@ == join_texts(guardian_names(guardians@), joiner@),
    {
        let mut v: Vec<char> = Vec::new();
        let mut i: usize = 0;
        while i < guardians.len()
            invariant
                i <= guardians.len(),
                v@ == join_texts(guardian_names(guardians@.take(i as int)), joiner@),
            decreases guardians.len() - i,
        {
            let ghost before = guardian_names(guardians@.take(i as int));
            if i > 0 {
                push_str(&mut v, joiner);
            }
            let name = guardians[i].format_name();
            push_str(&mut v, name.as_str());
            proof {
                let after = guardian_names(guardians@.take(i + 1));
                assert(after.drop_last() =~= before);
                assert(after.last() == guardian_name_text(guardians@[i as int]));
                if i == 0 {
                    assert(before.len() == 0);
                    assert(v@ =~= after[0]);
                }
            }
            i = i + 1;
        }
        assert(guardians@.take(guardians.len() as int) == guardians@);
        chars_to_string(v.as_slice())
    }

    /// The members' names separated by commas.
    pub fn members_formatted_list(&self, guardians: &Vec<Guardian>) -> (r: String)
        ensures
            r@ == join_texts(guardian_names(guardians@), ", "@),
    {
        self.members_formatted(guardians, ", ")
    }

    /// The members' names one per line.
    pub fn members_formatted_column(&self, guardians: &Vec<Guardian>) -> (r: String)
        ensures
            r@ == join_texts(guardian_names(guardians@), "\n"@),
    {
        self.members_formatted(guardians, "\n")
    }
}

/// The number of member icons.
pub open spec fn icon_pool_len() -> int {
    13
}

/// The member icon at position `i` of the pool.
pub open spec fn icon_at(i: int) -> Seq<char> {
    if i == 0 {
        "💂🏻"@
    } else if i == 1 {
        "🕵🏼"@
    } else if i == 2 {
        "🧑🏽‍🏭"@
    } else if i == 3 {
        "🧑‍💻"@
    } else if i == 4 {
        "🧑🏼‍🚒"@
    } else if i == 5 {
        "🧑🏾‍🚀"@
    } else if i == 6 {
        "🥷🏾"@
    } else if i == 7 {
        "🥷🏻"@
    } else if i == 8 {
        "🧙🏽"@
    } else if i == 9 {
        "🧝🏼"@
    } else if i == 10 {
        "🧌"@
    } else if i == 11 {
        "🧛🏼"@
    } else {
        "🧟"@
    }
}

/// The icon of the member with user id `user_id`: chosen by the id's
/// magnitude, so that each guardian always gets the same icon.
pub open spec fn member_icon(user_id: i32) -> Seq<char> {
    let m = if user_id < 0 {
        -(user_id as int)
    } else {
        user_id as int
    };
    icon_at(m % icon_pool_len())
}

/// A member as listed: the guardian's names and the member's icon.
pub open spec fn member_template_matches(t: ActivityMemberTemplate, m: PlannedActivityMember, g: Guardian) -> bool {
    &&& t.psn_name@ == g.psn_name@
    &&& t.telegram_name@ == g.telegram_name@
    &&& t.icon@ == member_icon(m.user_id)
}

impl PlannedActivityMember {
    /// The member's display name, from the guardian record it refers to.
    pub fn format_name(&self, guardian: &Guardian) -> (r: String)
        requires
            guardian.id == self.user_id,
        ensures
            r@ == guardian_name_text(*guardian),
    {
        guardian.format_name()
    }

    /// The member as listed, from the guardian record it refers to.
    pub fn to_template(&self, guardian: &Guardian) -> (r: ActivityMemberTemplate)
        requires
            guardian.id == self.user_id,
        ensures
            member_template_matches(r, *self, *guardian),
    {
        let (telegram_name, psn_name) = guardian.names();
        ActivityMemberTemplate { psn_name, telegram_name, icon: self.icon() }
    }

    /// The member's icon.
    pub fn icon(&self) -> (r: String)
        ensures
            r@ == member_icon(self.user_id),
    {
        let m: u32 = if self.user_id < 0 {
            (-(self.user_id as i64)) as u32
        } else {
            self.user_id as u32
        };
        let i = m % 13;
        let s = if i == 0 {
            "💂🏻"
        } else if i == 1 {
            "🕵🏼"
        } else if i == 2 {
            "🧑🏽‍🏭"
        } else if i == 3 {
            "🧑‍💻"
        } else if i == 4 {
            "🧑🏼‍🚒"
        } else if i == 5 {
            "🧑🏾‍🚀"
        } else if i == 6 {
            "🥷🏾"
        } else if i == 7 {
            "🥷🏻"
        } else if i == 8 {
            "🧙🏽"
        } else if i == 9 {
            "🧝🏼"
        } else if i == 10 {
            "🧌"
        } else if i == 11 {
            "🧛🏼"
        } else {
            "🧟"
        };
        s.to_owned()
    }
}

/// A planned activity as listed, given its activity, its members' listings,
/// its start time as text and whether the viewer has joined it.
pub open spec fn activity_template_matches(
    t: PlannedActivityTemplate,
    p: PlannedActivity,
    a: Activity,
    members: Seq<ActivityMemberTemplate>,
    time: Seq<char>,
    joined: bool,
) -> bool {
    &&& t.id == p.id
    &&& t.name@ == activity_name_text(a)
    &&& t.details@ == details_text(p.details)
    &&& t.members@ == members
    &&& t.count == free_slots(members.len(), a.max_fireteam_size)
    &&& t.time@ == time
    &&& t.fireteam_full == (t.count == 0)
    &&& t.fireteam_joined == joined
    &&& t.join_link@ == join_prompt_text(p.id, members.len(), a.max_fireteam_size)
    &&& t.leave_link@ == cancel_link_text(p.id)
}

impl PlannedActivity {
    /// The activity as listed: `activity` is the one it refers to, `members`
    /// its members' listings in order of joining, `time` its start as text,
    /// `fireteam_joined` whether the viewer is among the members.
    pub fn to_template(
        &self,
        activity: &Activity,
        members: Vec<ActivityMemberTemplate>,
        time: String,
        fireteam_joined: bool,
    ) -> (r: PlannedActivityTemplate)
        requires
            activity.id == self.activity_id,
            members.len() <= activity.max_fireteam_size as usize,
        ensures
            activity_template_matches(r, *self, *activity, members@, time@, fireteam_joined),
    {
        let n = members.len();
        let count = activity.max_fireteam_size as usize - n;
        let join_link = self.join_prompt(n, activity);
        PlannedActivityTemplate {
            id: self.id,
            name: activity.format_name(),
            details: self.format_details(),
            members,
            count,
            time,
            fireteam_full: count == 0,
            join_link,
            fireteam_joined,
            leave_link: self.cancel_link(),
        }
    }
}

} // verus!
