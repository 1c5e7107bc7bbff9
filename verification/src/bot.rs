//! How the bot delivers messages, and its list of registered commands.

use vstd::prelude::*;
use crate::matching::{match_command, match_command_spec, opt_chars, opt_str_chars};
use crate::text::{chars_to_string, push_str, str_chars};

verus! {

/// How a message's text is marked up.
#[derive(Clone, Copy, Debug, PartialEq, Eq, Structural)]
pub enum Format {
    Plain,
    Markdown,
    Html,
}

/// Whether a message notifies the chat's members.
#[derive(Clone, Copy, Debug, PartialEq, Eq, Structural)]
pub enum Notify {
    Off,
    On,
}

impl Notify {
    /// Whether the message is sent silently.
    pub fn disables_notification(&self) -> (r: bool)
        ensures
            r == (*self == Notify::Off),
    {
        match self {
            Notify::On => false,
            Notify::Off => true,
        }
    }
}

/// A command name and its description.
pub type CommandInfo = (Seq<char>, Seq<char>);

/// `a` sorts before or together with `b`: character-wise comparison by code
/// point, a proper prefix first (the order of `String`s).
pub open spec fn text_le(a: Seq<char>, b: Seq<char>) -> bool
    decreases a.len(),
{
    if a.len() == 0 {
        true
    } else if b.len() == 0 {
        false
    } else if a[0] != b[0] {
        (a[0] as u32) < (b[0] as u32)
    } else {
        text_le(a.drop_first(), b.drop_first())
    }
}

/// How many leading entries of `s` have a name that sorts before or with
/// `name`.
pub open spec fn count_not_after(s: Seq<CommandInfo>, name: Seq<char>) -> nat
    decreases s.len(),
{
    if s.len() > 0 && text_le(s[0].0, name) {
        1 + count_not_after(s.drop_first(), name)
    } else {
        0
    }
}

/// Commands sorted by name, keeping the registration order of equal names
/// (a stable sort by name).
pub open spec fn sort_commands(s: Seq<CommandInfo>) -> Seq<CommandInfo>
    decreases s.len(),
{
    if s.len() == 0 {
        Seq::empty()
    } else {
        let sorted = sort_commands(s.drop_last());
        sorted.insert(count_not_after(sorted, s.last().0) as int, s.last())
    }
}

/// One line per command after the heading.
pub open spec fn help_lines(s: Seq<CommandInfo>) -> Seq<char>
    decreases s.len(),
{
    if s.len() == 0 {
        "<b>Help</b> 🚑\nThese are the registered commands for this Bot:\n\n"@
    } else {
        help_lines(s.drop_last()) + s.last().0 + " — "@ + s.last().1 + "\n\n"@
    }
}

/// The view of a list of commands.
pub open spec fn commands_view(c: Seq<(String, String)>) -> Seq<CommandInfo> {
    c.map_values(|p: (String, String)| (p.0@, p.1@))
}

/// Compares two strings in `String` order.
fn text_le_exec(a: &str, b: &str) -> (r: bool)
    ensures
        r == text_le(a@, b@),
{
    let ac = str_chars(a);
    let bc = str_chars(b);
    let mut i: usize = 0;
    assert(a@.skip(0) =~= a@);
    assert(b@.skip(0) =~= b@);
    while i < ac.len() && i < bc.len() && ac[i] == bc[i]
        invariant
            i <= ac.len(),
            i <= bc.len(),
            ac@ == a@,
            bc@ == b@,
            text_le(a@, b@) == text_le(a@.skip(i as int), b@.skip(i as int)),
        decreases ac.len() - i,
    {
        proof {
            let x = a@.skip(i as int);
            let y = b@.skip(i as int);
            assert(x.drop_first() =~= a@.skip(i + 1));
            assert(y.drop_first() =~= b@.skip(i + 1));
        }
        i = i + 1;
    }
    let ghost x = a@.skip(i as int);
    let ghost y = b@.skip(i as int);
    if i == ac.len() {
        assert(x.len() == 0);
        true
    } else if i == bc.len() {
        assert(y.len() == 0);
        false
    } else {
        assert(x[0] == ac@[i as int]);
        assert(y[0] == bc@[i as int]);
        (ac[i] as u32) < (bc[i] as u32)
    }
}

/// The help reply: a heading, then each registered command and its
/// description, sorted by command name.
pub fn help_text(commands: &Vec<(String, String)>) -> (r: String)
    ensures
        r@ == help_lines(sort_commands(commands_view(commands@))),
{
    let ghost cv = commands_view(commands@);
    let mut sorted: Vec<(String, String)> = Vec::new();
    let mut i: usize = 0;
    proof {
        assert(cv.take(0) =~= Seq::<CommandInfo>::empty());
        assert(commands_view(sorted@) =~= Seq::<CommandInfo>::empty());
    }
    while i < commands.len()
        invariant
            i <= commands.len(),
            cv == commands_view(commands@),
            cv.len() == commands.len(),
            commands_view(sorted@) == sort_commands(cv.take(i as int)),
        decreases commands.len() - i,
    {
        let name = commands[i].0.clone();
        let desc = commands[i].1.clone();
        let ghost sv = commands_view(sorted@);
        let mut p: usize = 0;
        assert(sv.skip(0) =~= sv);
        while p < sorted.len() && text_le_exec(sorted[p].0.as_str(), name.as_str())
            invariant
                p <= sorted.len(),
                sv == commands_view(sorted@),
                sv.len() == sorted.len(),
                count_not_after(sv, name@) == p + count_not_after(sv.skip(p as int), name@),
            decreases sorted.len() - p,
        {
            proof {
                let t = sv.skip(p as int);
                assert(t[0] == sv[p as int]);
                assert(t.drop_first() =~= sv.skip(p + 1));
            }
            p = p + 1;
        }
        proof {
            let t = sv.skip(p as int);
            if p < sorted.len() {
                assert(t[0] == sv[p as int]);
            }
        }
        sorted.insert(p, (name, desc));
        proof {
            let pre = cv.take(i + 1);
            assert(pre.drop_last() =~= cv.take(i as int));
            assert(pre.last() == cv[i as int]);
            assert(cv[i as int] == (commands@[i as int].0@, commands@[i as int].1@));
            assert(commands_view(sorted@) =~= sv.insert(p as int, (name@, desc@)));
        }
        i = i + 1;
    }
    proof {
        assert(cv.take(commands.len() as int) =~= cv);
    }
    let ghost sv = commands_view(sorted@);
    let mut text: Vec<char> = Vec::new();
    push_str(&mut text, "<b>Help</b> 🚑\nThese are the registered commands for this Bot:\n\n");
    let mut j: usize = 0;
    proof {
        assert(sv.take(0) =~= Seq::<CommandInfo>::empty());
    }
    while j < sorted.len()
        invariant
            j <= sorted.len(),
            sv == commands_view(sorted@),
            sv.len() == sorted.len(),
            text@ == help_lines(sv.take(j as int)),
        decreases sorted.len() - j,
    {
        let ghost before = text@;
        push_str(&mut text, sorted[j].0.as_str());
        push_str(&mut text, " — ");
        push_str(&mut text, sorted[j].1.as_str());
        push_str(&mut text, "\n\n");
        proof {
            let pre = sv.take(j + 1);
            assert(pre.drop_last() =~= sv.take(j as int));
            assert(pre.last() == sv[j as int]);
            assert(sv[j as int] == (sorted@[j as int].0@, sorted@[j as int].1@));
            assert(text@ =~= before + sorted@[j as int].0@ + " — "@ + sorted@[j as int].1@
                + "\n\n"@);
        }
        j = j + 1;
    }
    proof {
        assert(sv.take(sorted.len() as int) =~= sv);
    }
    chars_to_string(text.as_slice())
}

// ---------------------------------------------------------------------------
// Registered commands and dispatch
// ---------------------------------------------------------------------------

/// The commands the bot registers, in registration order: each command's
/// name and its description.
pub open spec fn registered_commands_spec() -> Seq<CommandInfo> {
    seq![
        ("/activities"@, "List available activity shortcuts"@),
        ("/cancel"@, "Leave joined activity"@),
        ("/chatid"@, "Figure out the numeric chat ID"@),
        ("/dweek"@, "Show current Destiny 1 week"@),
        ("/d2week"@, "Show current Destiny 2 week"@),
        ("/edit"@, "Edit existing activity"@),
        ("/editguar"@, "Edit information about registered guardians"@),
        ("/help"@, "List available commands"@),
        ("/join"@, "Join existing activity from the list"@),
        ("/lfg"@, "Create a new Looking For Group event"@),
        ("/list"@, "List current events"@),
        ("/manage"@, "Manage bot users (admin-only)"@),
        ("/psn"@, "Link your telegram user to PSN"@),
        ("/uptime"@, "Show bot uptime and statistics"@),
        ("/whois"@, "Query telegram or PSN id"@),
    ]
}

fn command_entry(name: &str, description: &str) -> (r: (String, String))
    ensures
        r.0@ == name@,
        r.1@ == description@,
{
    (name.to_owned(), description.to_owned())
}

/// The commands the bot registers, in registration order.
pub fn registered_commands() -> (r: Vec<(String, String)>)
    ensures
        commands_view(r@) == registered_commands_spec(),
{
    let mut v: Vec<(String, String)> = Vec::new();
    v.push(command_entry("/activities", "List available activity shortcuts"));
    v.push(command_entry("/cancel", "Leave joined activity"));
    v.push(command_entry("/chatid", "Figure out the numeric chat ID"));
    v.push(command_entry("/dweek", "Show current Destiny 1 week"));
    v.push(command_entry("/d2week", "Show current Destiny 2 week"));
    v.push(command_entry("/edit", "Edit existing activity"));
    v.push(command_entry("/editguar", "Edit information about registered guardians"));
    v.push(command_entry("/help", "List available commands"));
    v.push(command_entry("/join", "Join existing activity from the list"));
    v.push(command_entry("/lfg", "Create a new Looking For Group event"));
    v.push(command_entry("/list", "List current events"));
    v.push(command_entry("/manage", "Manage bot users (admin-only)"));
    v.push(command_entry("/psn", "Link your telegram user to PSN"));
    v.push(command_entry("/uptime", "Show bot uptime and statistics"));
    v.push(command_entry("/whois", "Query telegram or PSN id"));
    assert(commands_view(v@) =~= registered_commands_spec());
    v
}

/// A message goes to command `name` where its text matches it.
pub open spec fn handles(text: Option<Seq<char>>, bot_name: Seq<char>, name: Seq<char>) -> bool {
    match_command_spec(text, name, bot_name).0 is Some
}

/// The positions, in order, of the commands that a message goes to.
pub open spec fn dispatch_spec(text: Option<Seq<char>>, bot_name: Seq<char>, cmds: Seq<CommandInfo>) -> Seq<
    int,
>
    decreases cmds.len(),
{
    if cmds.len() == 0 {
        Seq::empty()
    } else {
        let earlier = dispatch_spec(text, bot_name, cmds.drop_last());
        if handles(text, bot_name, cmds.last().0) {
            earlier.push(cmds.len() - 1)
        } else {
            earlier
        }
    }
}

/// The positions of the registered commands that a message goes to.
pub fn dispatch(text: Option<&str>, bot_name: &str, commands: &Vec<(String, String)>) -> (r: Vec<
    usize,
>)
    ensures
        r@.map_values(|i: usize| i as int) == dispatch_spec(
            opt_str_chars(text),
            bot_name@,
            commands_view(commands@),
        ),
{
    let ghost cv = commands_view(commands@);
    let mut out: Vec<usize> = Vec::new();
    let mut i: usize = 0;
    proof {
        assert(out@.map_values(|i: usize| i as int) =~= dispatch_spec(
            opt_str_chars(text),
            bot_name@,
            cv.take(0),
        ));
    }
    while i < commands.len()
        invariant
            i <= commands.len(),
            cv == commands_view(commands@),
            cv.len() == commands.len(),
            out@.map_values(|i: usize| i as int) == dispatch_spec(
                opt_str_chars(text),
                bot_name@,
                cv.take(i as int),
            ),
        decreases commands.len() - i,
    {
        let m = match_command(text, commands[i].0.as_str(), bot_name);
        let ghost before = out@;
        proof {
            let pre = cv.take(i + 1);
            assert(pre.drop_last() =~= cv.take(i as int));
            assert(pre.last() == cv[i as int]);
            assert(cv[i as int].0 == commands@[i as int].0@);
        }
        if m.0.is_some() {
            out.push(i);
            assert(out@.map_values(|i: usize| i as int) =~= before.map_values(|i: usize| i as int).push(
                i as int,
            ));
        }
        i = i + 1;
    }
    assert(cv.take(commands.len() as int) =~= cv);
    out
}

/// No two commands of the list share a name.
pub open spec fn distinct_names(cmds: Seq<CommandInfo>) -> bool {
    forall|i: int, j: int| 0 <= i < j < cmds.len() ==> #[trigger] cmds[i].0 != #[trigger] cmds[j].0
}

/// A message is handled by at most one command name.
pub proof fn lemma_handles_one_name(text: Option<Seq<char>>, bot_name: Seq<char>, a: Seq<char>, b: Seq<char>)
    requires
        handles(text, bot_name, a),
        handles(text, bot_name, b),
    ensures
        a == b,
{
}

/// A message goes to at most one of differently named commands, and only to
/// one that it matches.
pub proof fn lemma_dispatch_at_most_one(text: Option<Seq<char>>, bot_name: Seq<char>, cmds: Seq<CommandInfo>)
    requires
        distinct_names(cmds),
    ensures
        dispatch_spec(text, bot_name, cmds).len() <= 1,
        forall|k: int|
            0 <= k < dispatch_spec(text, bot_name, cmds).len() ==> {
                let i = #[trigger] dispatch_spec(text, bot_name, cmds)[k];
                0 <= i < cmds.len() && handles(text, bot_name, cmds[i].0)
            },
    decreases cmds.len(),
{
    if cmds.len() > 0 {
        let init = cmds.drop_last();
        assert forall|i: int, j: int| 0 <= i < j < init.len() implies #[trigger] init[i].0
            != #[trigger] init[j].0 by {
            assert(init[i] == cmds[i]);
            assert(init[j] == cmds[j]);
        }
        lemma_dispatch_at_most_one(text, bot_name, init);
        let earlier = dispatch_spec(text, bot_name, init);
        if handles(text, bot_name, cmds.last().0) && earlier.len() == 1 {
            let i = earlier[0];
            assert(init[i] == cmds[i]);
            lemma_handles_one_name(text, bot_name, cmds[i].0, cmds.last().0);
            assert(cmds[i].0 != cmds[cmds.len() - 1].0);
        }
        assert forall|k: int| 0 <= k < dispatch_spec(text, bot_name, cmds).len() implies {
            let i = #[trigger] dispatch_spec(text, bot_name, cmds)[k];
            0 <= i < cmds.len() && handles(text, bot_name, cmds[i].0)
        } by {
            if k < earlier.len() {
                assert(dispatch_spec(text, bot_name, cmds)[k] == earlier[k]);
                assert(init[earlier[k]] == cmds[earlier[k]]);
            }
        }
    }
}

/// The registered commands have different names, so every message goes to
/// at most one of them.
pub proof fn lemma_registered_names_distinct()
    ensures
        distinct_names(registered_commands_spec()),
{
    reveal_strlit("/activities");
    reveal_strlit("/cancel");
    reveal_strlit("/chatid");
    reveal_strlit("/dweek");
    reveal_strlit("/d2week");
    reveal_strlit("/edit");
    reveal_strlit("/editguar");
    reveal_strlit("/help");
    reveal_strlit("/join");
    reveal_strlit("/lfg");
    reveal_strlit("/list");
    reveal_strlit("/manage");
    reveal_strlit("/psn");
    reveal_strlit("/uptime");
    reveal_strlit("/whois");
    let c = registered_commands_spec();
    assert forall|i: int, j: int| 0 <= i < j < c.len() implies #[trigger] c[i].0 != #[trigger] c[j].0 by {
        if c[i].0.len() == c[j].0.len() {
            assert(c[i].0[1] != c[j].0[1] || c[i].0[2] != c[j].0[2] || c[i].0[3] != c[j].0[3]);
        }
    }
}

/// Every message goes to at most one of the registered commands.
pub proof fn lemma_registered_dispatch_at_most_one(text: Option<Seq<char>>, bot_name: Seq<char>)
    ensures
        dispatch_spec(text, bot_name, registered_commands_spec()).len() <= 1,
{
    lemma_registered_names_distinct();
    lemma_dispatch_at_most_one(text, bot_name, registered_commands_spec());
}

// ---------------------------------------------------------------------------
// The help listing is sorted
// ---------------------------------------------------------------------------

/// The commands are in name order.
pub open spec fn sorted_by_name(s: Seq<CommandInfo>) -> bool {
    forall|i: int, j: int| 0 <= i < j < s.len() ==> text_le(#[trigger] s[i].0, #[trigger] s[j].0)
}

/// Any two names are ordered one way or the other.
pub proof fn lemma_text_le_total(a: Seq<char>, b: Seq<char>)
    ensures
        text_le(a, b) || text_le(b, a),
    decreases a.len(),
{
    if a.len() > 0 && b.len() > 0 {
        if a[0] == b[0] {
            lemma_text_le_total(a.drop_first(), b.drop_first());
        } else {
            vstd::utf8::char_u32_cast(a[0], a[0] as u32);
            vstd::utf8::char_u32_cast(b[0], b[0] as u32);
        }
    }
}

/// The name order is transitive.
pub proof fn lemma_text_le_transitive(a: Seq<char>, b: Seq<char>, c: Seq<char>)
    requires
        text_le(a, b),
        text_le(b, c),
    ensures
        text_le(a, c),
    decreases a.len(),
{
    if a.len() > 0 && a[0] == b[0] && b[0] == c[0] {
        lemma_text_le_transitive(a.drop_first(), b.drop_first(), c.drop_first());
    }
}

/// The leading entries that `count_not_after` counts are exactly those up
/// to the first name that sorts after `name`.
proof fn lemma_count_not_after(s: Seq<CommandInfo>, name: Seq<char>)
    ensures
        count_not_after(s, name) <= s.len(),
        forall|i: int| 0 <= i < count_not_after(s, name) ==> text_le(#[trigger] s[i].0, name),
        count_not_after(s, name) < s.len() ==> !text_le(s[count_not_after(s, name) as int].0, name),
    decreases s.len(),
{
    if s.len() > 0 && text_le(s[0].0, name) {
        let t = s.drop_first();
        lemma_count_not_after(t, name);
        assert forall|i: int| 0 <= i < count_not_after(s, name) implies text_le(
            #[trigger] s[i].0,
            name,
        ) by {
            if i > 0 {
                assert(s[i] == t[i - 1]);
            }
        }
        if count_not_after(s, name) < s.len() {
            assert(s[count_not_after(s, name) as int] == t[count_not_after(t, name) as int]);
        }
    }
}

/// The help listing is sorted by command name and lists every registered
/// command exactly as often as it was registered.
pub proof fn lemma_sort_commands(s: Seq<CommandInfo>)
    ensures
        sorted_by_name(sort_commands(s)),
        sort_commands(s).to_multiset() == s.to_multiset(),
    decreases s.len(),
{
    broadcast use vstd::seq_lib::group_to_multiset_ensures;

    if s.len() > 0 {
        let init = s.drop_last();
        let x = s.last();
        lemma_sort_commands(init);
        let sorted = sort_commands(init);
        let p = count_not_after(sorted, x.0) as int;
        lemma_count_not_after(sorted, x.0);
        let r = sorted.insert(p, x);
        sorted.insert_ensures(p, x);
        assert(r == sort_commands(s));
        assert forall|i: int, j: int| 0 <= i < j < r.len() implies text_le(
            #[trigger] r[i].0,
            #[trigger] r[j].0,
        ) by {
            if j < p {
                assert(r[i] == sorted[i] && r[j] == sorted[j]);
            } else if j == p {
                assert(r[i] == sorted[i]);
            } else if i == p {
                assert(r[j] == sorted[j - 1]);
                assert(!text_le(sorted[p].0, x.0));
                lemma_text_le_total(sorted[p].0, x.0);
                if j - 1 > p {
                    lemma_text_le_transitive(x.0, sorted[p].0, sorted[j - 1].0);
                }
            } else if i < p {
                assert(r[i] == sorted[i] && r[j] == sorted[j - 1]);
            } else {
                assert(r[i] == sorted[i - 1] && r[j] == sorted[j - 1]);
            }
        }
        vstd::seq_lib::to_multiset_insert(sorted, p, x);
        assert(init.push(x) =~= s);
        vstd::seq_lib::to_multiset_build(init, x);
    }
}

} // verus!
