//! The commands about guardians: linking a PSN account (`/psn`), looking
//! guardians up (`/whois`), editing their records (`/editguar`) and managing
//! admins (`/manage`).

use vstd::prelude::*;
use crate::commands::{splitn, splitn_char, strings_view};
use crate::matching::opt_chars;
use crate::models::{Guardian, GuardianView, NewGuardian, guardian_name_text, str_eq};
use crate::text::{chars_to_string, concat2, concat3, push_str};

verus! {

// ---------------------------------------------------------------------------
// Looking a guardian up by name
// ---------------------------------------------------------------------------

/// The command that looks a guardian up by name; each words its replies a
/// little differently.
#[derive(Clone, Copy, PartialEq, Eq, Structural)]
pub enum LookupFor {
    Editing,
    Promoting,
    Demoting,
    Whois,
}

/// Reply where no guardian has the name.
pub open spec fn guardian_not_found_text(w: LookupFor, name: Seq<char>) -> Seq<char> {
    let head = match w {
        LookupFor::Editing | LookupFor::Promoting => "❌ Guardian "@,
        LookupFor::Demoting | LookupFor::Whois => "Guardian "@,
    };
    head + name + " was not found."@
}

/// Reply where the lookup failed.
pub open spec fn guardian_query_failed_text(w: LookupFor) -> Seq<char> {
    match w {
        LookupFor::Editing => "❌ Error querying guardian by name."@,
        LookupFor::Promoting => "❌ Error querying guardian name."@,
        LookupFor::Demoting | LookupFor::Whois => "Error querying guardian name."@,
    }
}

/// The guardian found under `name`, or the reply where there is none or the
/// lookup failed.
pub fn named_guardian(w: LookupFor, name: &str, lookup: Result<Option<Guardian>, ()>) -> (r: Result<
    Guardian,
    String,
>)
    ensures
        match lookup {
            Ok(Some(g)) => r == Ok::<Guardian, String>(g),
            Ok(None) => r matches Err(t) && t@ == guardian_not_found_text(w, name@),
            Err(_) => r matches Err(t) && t@ == guardian_query_failed_text(w),
        },
{
    match lookup {
        Ok(Some(g)) => Ok(g),
        Ok(None) => {
            let head = match w {
                LookupFor::Editing | LookupFor::Promoting => "❌ Guardian ",
                LookupFor::Demoting | LookupFor::Whois => "Guardian ",
            };
            Err(concat3(head, name, " was not found."))
        },
        Err(_) => Err(
            match w {
                LookupFor::Editing => "❌ Error querying guardian by name.".to_owned(),
                LookupFor::Promoting => "❌ Error querying guardian name.".to_owned(),
                LookupFor::Demoting | LookupFor::Whois => "Error querying guardian name.".to_owned(),
            },
        ),
    }
}

// ---------------------------------------------------------------------------
// /whois
// ---------------------------------------------------------------------------

/// Reply to `/whois` without a name.
pub open spec fn whois_usage_text() -> Seq<char> {
    "To query user provide his @TelegramId (starting with @) or PsnId"@
}

/// Reply to `/whois` without a name.
pub fn whois_usage_reply() -> (r: String)
    ensures
        r@ == whois_usage_text(),
{
    "To query user provide his @TelegramId (starting with @) or PsnId".to_owned()
}

/// `"Guardian @{telegram} PSN {psn}"`.
pub open spec fn whois_found_text(g: Guardian) -> Seq<char> {
    "Guardian @"@ + g.telegram_name@ + " PSN "@ + g.psn_name@
}

/// The reply to `/whois name`, from looking the name up.
pub fn whois_reply(name: &str, lookup: Result<Option<Guardian>, ()>) -> (r: String)
    ensures
        r@ == match lookup {
            Ok(Some(g)) => whois_found_text(g),
            Ok(None) => guardian_not_found_text(LookupFor::Whois, name@),
            Err(_) => guardian_query_failed_text(LookupFor::Whois),
        },
{
    match named_guardian(LookupFor::Whois, name, lookup) {
        Ok(g) => {
            let mut v: Vec<char> = Vec::new();
            push_str(&mut v, "Guardian @");
            push_str(&mut v, g.telegram_name.as_str());
            push_str(&mut v, " PSN ");
            push_str(&mut v, g.psn_name.as_str());
            chars_to_string(v.as_slice())
        },
        Err(t) => t,
    }
}

// ---------------------------------------------------------------------------
// /editguar
// ---------------------------------------------------------------------------

/// A parsed `/editguar` request, as values. A target of `None` is the
/// sender (`my`).
pub enum EditGuardianRequestView {
    Usage,
    Show(Option<Seq<char>>),
    Change(Option<Seq<char>>, Seq<char>, Seq<char>),
}

/// A parsed `/editguar` request: show a guardian's record, or change one of
/// its fields. A target of `None` is the sender (`my`); any other target is
/// for admins only.
pub enum EditGuardianRequest {
    Usage,
    Show { target: Option<String> },
    Change { target: Option<String>, field: String, value: String },
}

impl View for EditGuardianRequest {
    type V = EditGuardianRequestView;

    open spec fn view(&self) -> EditGuardianRequestView {
        match self {
            EditGuardianRequest::Usage => EditGuardianRequestView::Usage,
            EditGuardianRequest::Show { target } => EditGuardianRequestView::Show(opt_chars(*target)),
            EditGuardianRequest::Change { target, field, value } => EditGuardianRequestView::Change(
                opt_chars(*target),
                field@,
                value@,
            ),
        }
    }
}

/// `my` names the sender; any other word names a guardian.
pub open spec fn edit_target(name: Seq<char>) -> Option<Seq<char>> {
    if name == "my"@ {
        None
    } else {
        Some(name)
    }
}

/// Reads `/editguar NAME [FIELD VALUE]`: one word shows the record, three
/// parts change a field; anything else shows the usage.
pub open spec fn editguar_request_spec(args: Option<Seq<char>>) -> EditGuardianRequestView {
    match args {
        None => EditGuardianRequestView::Usage,
        Some(a) => {
            let parts = splitn_char(a, 3, ' ');
            if parts.len() == 1 {
                EditGuardianRequestView::Show(edit_target(parts[0]))
            } else if parts.len() == 3 {
                EditGuardianRequestView::Change(edit_target(parts[0]), parts[1], parts[2])
            } else {
                EditGuardianRequestView::Usage
            }
        },
    }
}

fn edit_target_exec(name: &String) -> (r: Option<String>)
    ensures
        opt_chars(r) == edit_target(name@),
{
    if str_eq(name.as_str(), "my") {
        None
    } else {
        Some(name.clone())
    }
}

/// Reads the arguments of `/editguar`.
pub fn editguar_request(args: &Option<String>) -> (r: EditGuardianRequest)
    ensures
        r@ == editguar_request_spec(opt_chars(*args)),
{
    match args {
        None => EditGuardianRequest::Usage,
        Some(a) => {
            let parts = splitn(a.as_str(), 3, ' ');
            let ghost v = strings_view(parts@);
            assert(v[0] == parts@[0]@);
            if parts.len() == 1 {
                EditGuardianRequest::Show { target: edit_target_exec(&parts[0]) }
            } else if parts.len() == 3 {
                assert(v[1] == parts@[1]@);
                assert(v[2] == parts@[2]@);
                EditGuardianRequest::Change {
                    target: edit_target_exec(&parts[0]),
                    field: parts[1].clone(),
                    value: parts[2].clone(),
                }
            } else {
                EditGuardianRequest::Usage
            }
        },
    }
}

/// A guardian's record as `/editguar NAME` shows it:
/// `"[{clan}] {telegram} {email} {role}"`, the clan and its brackets left
/// out where there is none, `<no email>` where there is no email, and the
/// role `<superadmin>`, `<admin>` or nothing.
pub open spec fn guardian_info_text(g: GuardianView) -> Seq<char> {
    let clan = match g.psn_clan {
        Some(c) => "["@ + c + "] "@,
        None => Seq::empty(),
    };
    let email = match g.email {
        Some(e) => e,
        None => "<no email>"@,
    };
    let role = if g.is_superadmin {
        "<superadmin>"@
    } else if g.is_admin {
        "<admin>"@
    } else {
        Seq::empty()
    };
    clan + g.telegram_name + " "@ + email + " "@ + role
}

/// A guardian's record as `/editguar NAME` shows it.
pub fn guardian_info(g: &Guardian) -> (r: String)
    ensures
        r@ == guardian_info_text(g@),
{
    let mut v: Vec<char> = Vec::new();
    match &g.psn_clan {
        Some(c) => {
            push_str(&mut v, "[");
            push_str(&mut v, c.as_str());
            push_str(&mut v, "] ");
        },
        None => {},
    }
    push_str(&mut v, g.telegram_name.as_str());
    push_str(&mut v, " ");
    match &g.email {
        Some(e) => push_str(&mut v, e.as_str()),
        None => push_str(&mut v, "<no email>"),
    }
    push_str(&mut v, " ");
    if g.is_superadmin {
        push_str(&mut v, "<superadmin>");
    } else if g.is_admin {
        push_str(&mut v, "<admin>");
    }
    chars_to_string(v.as_slice())
}

/// A field that `/editguar` changes.
#[derive(Clone, Copy, PartialEq, Eq, Structural)]
pub enum GuardianField {
    Psn,
    Clan,
    Email,
}

/// The field a word names: `psn`, `clan` or `email`.
pub open spec fn guardian_field_spec(word: Seq<char>) -> Option<GuardianField> {
    if word == "psn"@ {
        Some(GuardianField::Psn)
    } else if word == "clan"@ {
        Some(GuardianField::Clan)
    } else if word == "email"@ {
        Some(GuardianField::Email)
    } else {
        None
    }
}

/// The field a word names.
pub fn guardian_field(word: &str) -> (r: Option<GuardianField>)
    ensures
        r == guardian_field_spec(word@),
{
    if str_eq(word, "psn") {
        Some(GuardianField::Psn)
    } else if str_eq(word, "clan") {
        Some(GuardianField::Clan)
    } else if str_eq(word, "email") {
        Some(GuardianField::Email)
    } else {
        None
    }
}

/// An optional field's new value: `delete` clears it.
pub open spec fn optional_value(value: Seq<char>) -> Option<Seq<char>> {
    if value == "delete"@ {
        None
    } else {
        Some(value)
    }
}

/// The record with the field changed; nothing else changes.
pub open spec fn edited_guardian(g: GuardianView, f: GuardianField, value: Seq<char>) -> GuardianView {
    match f {
        GuardianField::Psn => GuardianView { psn_name: value, ..g },
        GuardianField::Clan => GuardianView { psn_clan: optional_value(value), ..g },
        GuardianField::Email => GuardianView { email: optional_value(value), ..g },
    }
}

/// Two records of the same guardian: all but the editable fields (PSN
/// name, clan, email) agree.
pub open spec fn same_guardian(a: GuardianView, b: GuardianView) -> bool {
    &&& a.id == b.id
    &&& a.telegram_name == b.telegram_name
    &&& a.telegram_id == b.telegram_id
    &&& a.created_at == b.created_at
    &&& a.updated_at == b.updated_at
    &&& a.deleted_at == b.deleted_at
    &&& a.pending_activation_code == b.pending_activation_code
    &&& a.is_admin == b.is_admin
    &&& a.is_superadmin == b.is_superadmin
}

/// Editing a field sets that field and no other: the PSN name to the value;
/// the clan and the email to the value, or clears them where the value is
/// `delete`.
pub proof fn lemma_edit_guardian_fields(g: GuardianView, value: Seq<char>)
    ensures
        ({
            let r = edited_guardian(g, GuardianField::Psn, value);
            same_guardian(g, r) && r.psn_name == value && r.psn_clan == g.psn_clan && r.email
                == g.email
        }),
        ({
            let r = edited_guardian(g, GuardianField::Clan, value);
            &&& same_guardian(g, r)
            &&& r.psn_name == g.psn_name
            &&& r.email == g.email
            &&& value == "delete"@ ==> r.psn_clan is None
            &&& value != "delete"@ ==> r.psn_clan == Some(value)
        }),
        ({
            let r = edited_guardian(g, GuardianField::Email, value);
            &&& same_guardian(g, r)
            &&& r.psn_name == g.psn_name
            &&& r.psn_clan == g.psn_clan
            &&& value == "delete"@ ==> r.email is None
            &&& value != "delete"@ ==> r.email == Some(value)
        }),
{
}

fn optional_value_exec(value: &str) -> (r: Option<String>)
    ensures
        opt_chars(r) == optional_value(value@),
{
    if str_eq(value, "delete") {
        None
    } else {
        Some(value.to_owned())
    }
}

/// Changes a field of a guardian's record.
pub fn edit_guardian(g: Guardian, f: GuardianField, value: &str) -> (r: Guardian)
    ensures
        r@ == edited_guardian(g@, f, value@),
{
    let mut g = g;
    match f {
        GuardianField::Psn => g.psn_name = value.to_owned(),
        GuardianField::Clan => g.psn_clan = optional_value_exec(value),
        GuardianField::Email => g.email = optional_value_exec(value),
    }
    g
}

/// The reply to a field change: for an unknown field, or whether storing
/// the change succeeded.
pub open spec fn guardian_edit_text(f: Option<GuardianField>, saved: bool) -> Seq<char> {
    match f {
        None => "⁉️ Unknown information field"@,
        Some(GuardianField::Psn) => if saved {
            "✅ PSN updated successfully"@
        } else {
            "❌ Failed to update PSN"@
        },
        Some(GuardianField::Clan) => if saved {
            "✅ Updated guardian clan"@
        } else {
            "❌ Failed to update clan"@
        },
        Some(GuardianField::Email) => if saved {
            "✅ Updated guardian email"@
        } else {
            "❌ Failed to update email"@
        },
    }
}

/// The reply to a field change.
pub fn guardian_edit_reply(f: Option<GuardianField>, saved: bool) -> (r: String)
    ensures
        r@ == guardian_edit_text(f, saved),
{
    match f {
        None => "⁉️ Unknown information field".to_owned(),
        Some(GuardianField::Psn) => if saved {
            "✅ PSN updated successfully".to_owned()
        } else {
            "❌ Failed to update PSN".to_owned()
        },
        Some(GuardianField::Clan) => if saved {
            "✅ Updated guardian clan".to_owned()
        } else {
            "❌ Failed to update clan".to_owned()
        },
        Some(GuardianField::Email) => if saved {
            "✅ Updated guardian email".to_owned()
        } else {
            "❌ Failed to update email".to_owned()
        },
    }
}

/// What is known so far while `/editguar` runs. `None` marks what has not
/// been looked up (or stored) yet.
pub struct EditGuardianFacts {
    /// The parsed request.
    pub request: EditGuardianRequest,
    /// The sender's record, where the sender is registered (the lookup has
    /// already replied where not).
    pub sender: Option<Option<Guardian>>,
    /// The guardian named in the command (`Err` where the lookup failed).
    pub named: Option<Result<Option<Guardian>, ()>>,
    /// Whether storing the changed record succeeded.
    pub saved: Option<bool>,
}

/// The next step of `/editguar`.
#[derive(Clone, Copy, PartialEq, Eq, Structural)]
pub enum EditGuardianStep {
    /// Show the usage.
    Usage,
    /// Look up the sender's record.
    IdentifySender,
    /// Stop: the sender is not registered (already told).
    Stop,
    /// Reply that the sender is not an admin.
    NotAdmin,
    /// Look up the guardian named in the command.
    LookUpNamed,
    /// Reply that the named guardian was not found (`true`) or that the
    /// lookup failed (`false`).
    NamedMissing(bool),
    /// Reply with the target's record (see `guardian_info`).
    Show,
    /// Reply that the field is unknown.
    UnknownField,
    /// Store the target's record with the field changed (see
    /// `edit_guardian`).
    Store(GuardianField),
    /// Reply how storing the field went.
    Stored(GuardianField, bool),
}

/// What follows once the target is known: show it, or change the field.
pub open spec fn editguar_action(f: EditGuardianFacts) -> EditGuardianStep {
    match f.request {
        EditGuardianRequest::Change { field, .. } => match guardian_field_spec(field@) {
            None => EditGuardianStep::UnknownField,
            Some(fld) => match f.saved {
                None => EditGuardianStep::Store(fld),
                Some(ok) => EditGuardianStep::Stored(fld, ok),
            },
        },
        _ => EditGuardianStep::Show,
    }
}

/// The next step of `/editguar`: `my` is the sender; any other target needs
/// the sender to be an admin and is then looked up; then the record is shown
/// or the field changed.
pub open spec fn editguar_step_spec(f: EditGuardianFacts) -> EditGuardianStep {
    match f.request {
        EditGuardianRequest::Usage => EditGuardianStep::Usage,
        EditGuardianRequest::Show { target } | EditGuardianRequest::Change { target, .. } => match f.sender {
            None => EditGuardianStep::IdentifySender,
            Some(sender) => match target {
                None => match sender {
                    None => EditGuardianStep::Stop,
                    Some(_) => editguar_action(f),
                },
                Some(_) => if !(sender matches Some(g) && g.is_admin) {
                    EditGuardianStep::NotAdmin
                } else {
                    match f.named {
                        None => EditGuardianStep::LookUpNamed,
                        Some(Ok(None)) => EditGuardianStep::NamedMissing(true),
                        Some(Err(_)) => EditGuardianStep::NamedMissing(false),
                        Some(Ok(Some(_))) => editguar_action(f),
                    }
                },
            },
        },
    }
}

fn editguar_action_exec(f: &EditGuardianFacts) -> (r: EditGuardianStep)
    ensures
        r == editguar_action(*f),
{
    match &f.request {
        EditGuardianRequest::Change { field, .. } => match guardian_field(field.as_str()) {
            None => EditGuardianStep::UnknownField,
            Some(fld) => match f.saved {
                None => EditGuardianStep::Store(fld),
                Some(ok) => EditGuardianStep::Stored(fld, ok),
            },
        },
        _ => EditGuardianStep::Show,
    }
}

/// The next step of `/editguar`.
pub fn editguar_step(f: &EditGuardianFacts) -> (r: EditGuardianStep)
    ensures
        r == editguar_step_spec(*f),
{
    let named_target = match &f.request {
        EditGuardianRequest::Usage => return EditGuardianStep::Usage,
        EditGuardianRequest::Show { target } => target.is_some(),
        EditGuardianRequest::Change { target, .. } => target.is_some(),
    };
    let sender = match &f.sender {
        None => return EditGuardianStep::IdentifySender,
        Some(s) => s,
    };
    if !named_target {
        match sender {
            None => EditGuardianStep::Stop,
            Some(_) => editguar_action_exec(f),
        }
    } else {
        let is_admin = match sender {
            Some(g) => g.is_admin,
            None => false,
        };
        if !is_admin {
            EditGuardianStep::NotAdmin
        } else {
            match &f.named {
                None => EditGuardianStep::LookUpNamed,
                Some(Ok(None)) => EditGuardianStep::NamedMissing(true),
                Some(Err(_)) => EditGuardianStep::NamedMissing(false),
                Some(Ok(Some(_))) => editguar_action_exec(f),
            }
        }
    }
}

/// The request names a guardian other than the sender.
pub open spec fn names_someone(r: EditGuardianRequest) -> bool {
    match r {
        EditGuardianRequest::Show { target } => target is Some,
        EditGuardianRequest::Change { target, .. } => target is Some,
        EditGuardianRequest::Usage => false,
    }
}

/// Showing or editing someone else's record needs an admin: once the sender
/// is known, a sender who is not an admin is refused.
pub proof fn lemma_editguar_others_need_admin(f: EditGuardianFacts)
    requires
        names_someone(f.request),
        f.sender is Some,
        !(f.sender matches Some(Some(g)) && g.is_admin),
    ensures
        editguar_step_spec(f) == EditGuardianStep::NotAdmin,
{
}

// ---------------------------------------------------------------------------
// /manage
// ---------------------------------------------------------------------------

/// A parsed `/manage` request, as values.
pub enum ManageRequestView {
    Usage,
    ListAdmins,
    AddAdmin(Option<Seq<char>>),
    RemoveAdmin(Option<Seq<char>>),
    Unknown,
}

/// A parsed `/manage` request (admins only, checked before it is read).
pub enum ManageRequest {
    Usage,
    ListAdmins,
    /// Promote the named guardian.
    AddAdmin(Option<String>),
    /// Demote the named guardian.
    RemoveAdmin(Option<String>),
    /// Reply "Unknown management command".
    Unknown,
}

impl View for ManageRequest {
    type V = ManageRequestView;

    open spec fn view(&self) -> ManageRequestView {
        match self {
            ManageRequest::Usage => ManageRequestView::Usage,
            ManageRequest::ListAdmins => ManageRequestView::ListAdmins,
            ManageRequest::AddAdmin(n) => ManageRequestView::AddAdmin(opt_chars(*n)),
            ManageRequest::RemoveAdmin(n) => ManageRequestView::RemoveAdmin(opt_chars(*n)),
            ManageRequest::Unknown => ManageRequestView::Unknown,
        }
    }
}

/// Reads `/manage SUBCOMMAND [NAME]`.
pub open spec fn manage_request_spec(args: Option<Seq<char>>) -> ManageRequestView {
    match args {
        None => ManageRequestView::Usage,
        Some(a) => {
            let parts = splitn_char(a, 2, ' ');
            let rest = if parts.len() > 1 {
                Some(parts[1])
            } else {
                None
            };
            if parts[0] == "list-admins"@ {
                ManageRequestView::ListAdmins
            } else if parts[0] == "add-admin"@ {
                ManageRequestView::AddAdmin(rest)
            } else if parts[0] == "remove-admin"@ {
                ManageRequestView::RemoveAdmin(rest)
            } else {
                ManageRequestView::Unknown
            }
        },
    }
}

/// Reads the arguments of `/manage`.
pub fn manage_request(args: &Option<String>) -> (r: ManageRequest)
    ensures
        r@ == manage_request_spec(opt_chars(*args)),
{
    match args {
        None => ManageRequest::Usage,
        Some(a) => {
            let parts = splitn(a.as_str(), 2, ' ');
            let ghost v = strings_view(parts@);
            assert(v[0] == parts@[0]@);
            let rest = if parts.len() > 1 {
                assert(v[1] == parts@[1]@);
                Some(parts[1].clone())
            } else {
                None
            };
            let sub = parts[0].as_str();
            if str_eq(sub, "list-admins") {
                ManageRequest::ListAdmins
            } else if str_eq(sub, "add-admin") {
                ManageRequest::AddAdmin(rest)
            } else if str_eq(sub, "remove-admin") {
                ManageRequest::RemoveAdmin(rest)
            } else {
                ManageRequest::Unknown
            }
        },
    }
}

/// `"Existing admins:\n\n"`, then `"{admin}\n"` for each admin.
pub open spec fn admin_lines(admins: Seq<Guardian>) -> Seq<char>
    decreases admins.len(),
{
    if admins.len() == 0 {
        "Existing admins:\n\n"@
    } else {
        admin_lines(admins.drop_last()) + guardian_name_text(admins.last()) + "\n"@
    }
}

/// The reply to `/manage list-admins`.
pub open spec fn admins_list_text(admins: Seq<Guardian>) -> Seq<char> {
    if admins.len() == 0 {
        "No admins found"@
    } else {
        admin_lines(admins)
    }
}

/// The reply to `/manage list-admins`, from the admins (sorted by Telegram
/// name by the query).
pub fn admins_list_reply(admins: &Vec<Guardian>) -> (r: String)
    ensures
        r@ == admins_list_text(admins@),
{
    if admins.len() == 0 {
        return "No admins found".to_owned();
    }
    let mut v: Vec<char> = Vec::new();
    push_str(&mut v, "Existing admins:\n\n");
    let mut i: usize = 0;
    while i < admins.len()
        invariant
            i <= admins.len(),
            v@ == admin_lines(admins@.take(i as int)),
        decreases admins.len() - i,
    {
        let name = admins[i].format_name();
        push_str(&mut v, name.as_str());
        push_str(&mut v, "\n");
        proof {
            let t = admins@.take(i + 1);
            assert(t.drop_last() =~= admins@.take(i as int));
            assert(t.last() == admins@[i as int]);
        }
        i = i + 1;
    }
    assert(admins@.take(admins.len() as int) =~= admins@);
    chars_to_string(v.as_slice())
}

/// Why the caller cannot change admin roles, if so: only superadmins can,
/// and a guardian must be named.
pub open spec fn role_change_refusal_text(caller: GuardianView, target: Option<Seq<char>>, promote: bool) -> Option<
    Seq<char>,
> {
    if !caller.is_superadmin {
        Some("❌ You are not superadmin"@)
    } else if target is None {
        Some(
            if promote {
                "❌ Specify a guardian to promote to admin"@
            } else {
                "❌ Specify a guardian to demote from admins"@
            },
        )
    } else {
        None
    }
}

/// Why the caller cannot change admin roles, if so.
pub fn role_change_refusal(caller: &Guardian, target: &Option<String>, promote: bool) -> (r: Option<
    String,
>)
    ensures
        opt_chars(r) == role_change_refusal_text(caller@, opt_chars(*target), promote),
{
    if !caller.is_superadmin {
        Some("❌ You are not superadmin".to_owned())
    } else if target.is_none() {
        Some(
            if promote {
                "❌ Specify a guardian to promote to admin".to_owned()
            } else {
                "❌ Specify a guardian to demote from admins".to_owned()
            },
        )
    } else {
        None
    }
}

/// The outcome of a role change, as values.
pub enum RoleChangeView {
    Keep(Seq<char>),
    Store(GuardianView),
}

/// The outcome of a role change: nothing to store (with the reply saying
/// why), or the changed record to store.
pub enum RoleChange {
    Keep(String),
    Store(Guardian),
}

impl View for RoleChange {
    type V = RoleChangeView;

    open spec fn view(&self) -> RoleChangeView {
        match self {
            RoleChange::Keep(t) => RoleChangeView::Keep(t@),
            RoleChange::Store(g) => RoleChangeView::Store(g@),
        }
    }
}

/// Promoting a guardian: an admin already is one; anyone else becomes one.
pub open spec fn promote_spec(g: GuardianView) -> RoleChangeView {
    if g.is_admin {
        RoleChangeView::Keep("✅ @"@ + g.telegram_name + " is already an admin"@)
    } else {
        RoleChangeView::Store(GuardianView { is_admin: true, ..g })
    }
}

/// Demoting a guardian: a non-admin stays one, a superadmin cannot be
/// demoted, any other admin stops being one.
pub open spec fn demote_spec(g: GuardianView) -> RoleChangeView {
    if !g.is_admin {
        RoleChangeView::Keep("✅ @"@ + g.telegram_name + " is already not an admin"@)
    } else if g.is_superadmin {
        RoleChangeView::Keep("❌ @"@ + g.telegram_name + " is a superadmin, you can not demote."@)
    } else {
        RoleChangeView::Store(GuardianView { is_admin: false, ..g })
    }
}

/// Promotes a guardian to admin.
pub fn promote(g: Guardian) -> (r: RoleChange)
    ensures
        r@ == promote_spec(g@),
{
    if g.is_admin {
        RoleChange::Keep(concat3("✅ @", g.telegram_name.as_str(), " is already an admin"))
    } else {
        let mut g = g;
        g.is_admin = true;
        RoleChange::Store(g)
    }
}

/// Demotes an admin.
pub fn demote(g: Guardian) -> (r: RoleChange)
    ensures
        r@ == demote_spec(g@),
{
    if !g.is_admin {
        RoleChange::Keep(concat3("✅ @", g.telegram_name.as_str(), " is already not an admin"))
    } else if g.is_superadmin {
        RoleChange::Keep(
            concat3("❌ @", g.telegram_name.as_str(), " is a superadmin, you can not demote."),
        )
    } else {
        let mut g = g;
        g.is_admin = false;
        RoleChange::Store(g)
    }
}

/// Promoting a guardian who is no admin and demoting the result again gives
/// back the guardian's record unchanged.
pub proof fn lemma_promote_then_demote(g: GuardianView)
    requires
        !g.is_admin,
        !g.is_superadmin,
    ensures
        (promote_spec(g) matches RoleChangeView::Store(p) && p.is_admin && demote_spec(p)
            == RoleChangeView::Store(g)),
{
}

/// A superadmin is never demoted, and a role change touches nothing but the
/// admin flag.
pub proof fn lemma_role_changes(g: GuardianView)
    ensures
        (g.is_superadmin ==> demote_spec(g) is Keep),
        (promote_spec(g) matches RoleChangeView::Store(p) ==> p == (GuardianView {
            is_admin: true,
            ..g
        })),
        (demote_spec(g) matches RoleChangeView::Store(p) ==> p == (GuardianView {
            is_admin: false,
            ..g
        })),
{
}

/// The reply after storing a role change.
pub open spec fn role_saved_text(promote: bool, telegram_name: Seq<char>, saved: bool) -> Seq<char> {
    if !saved {
        "Error updating guardian"@
    } else if promote {
        "✅ @"@ + telegram_name + " is now an admin!"@
    } else {
        "✅ @"@ + telegram_name + " is not an admin anymore!"@
    }
}

/// The reply after storing a role change.
pub fn role_saved_reply(promote: bool, telegram_name: &str, saved: bool) -> (r: String)
    ensures
        r@ == role_saved_text(promote, telegram_name@, saved),
{
    if !saved {
        "Error updating guardian".to_owned()
    } else if promote {
        concat3("✅ @", telegram_name, " is now an admin!")
    } else {
        concat3("✅ @", telegram_name, " is not an admin anymore!")
    }
}

/// The reply to a `/manage` subcommand that does not exist.
pub fn unknown_manage_reply() -> (r: String)
    ensures
        r@ == "Unknown management command"@,
{
    "Unknown management command".to_owned()
}

/// What is known so far while `/manage` runs. `None` marks what has not
/// been looked up (or stored) yet.
pub struct ManageFacts {
    /// The parsed request.
    pub request: ManageRequest,
    /// The sender's record where the sender is an admin (`Some(None)`
    /// otherwise).
    pub caller: Option<Option<Guardian>>,
    /// The guardian named in the command (`Err` where the lookup failed).
    pub target: Option<Result<Option<Guardian>, ()>>,
    /// Whether storing the role change succeeded.
    pub saved: Option<bool>,
}

/// The next step of `/manage`.
#[derive(Clone, Copy, PartialEq, Eq, Structural)]
pub enum ManageStep {
    /// Find out whether the sender is an admin.
    IdentifyCaller,
    /// Reply that the sender is not an admin.
    NotAdmin,
    /// Show the usage.
    Usage,
    /// List the admins (see `admins_list_reply`).
    ListAdmins,
    /// Reply "Unknown management command".
    Unknown,
    /// Reply why the role cannot be changed (see `role_change_refusal`).
    Refuse,
    /// Look up the named guardian.
    LookUpTarget,
    /// Reply that the named guardian was not found (`true`) or that the
    /// lookup failed (`false`).
    TargetMissing(bool),
    /// Reply that nothing changes (see `promote` and `demote`).
    Keep,
    /// Store the changed record.
    Store,
    /// Reply how storing went.
    Stored(bool),
}

/// The role change that a found guardian gets.
pub open spec fn role_change_spec(promote: bool, g: GuardianView) -> RoleChangeView {
    if promote {
        promote_spec(g)
    } else {
        demote_spec(g)
    }
}

/// The next step of `/manage`: only admins get anything but a refusal; only
/// superadmins change roles, of a guardian that exists.
pub open spec fn manage_step_spec(f: ManageFacts) -> ManageStep {
    match f.caller {
        None => ManageStep::IdentifyCaller,
        Some(None) => ManageStep::NotAdmin,
        Some(Some(caller)) => match f.request {
            ManageRequest::Usage => ManageStep::Usage,
            ManageRequest::ListAdmins => ManageStep::ListAdmins,
            ManageRequest::Unknown => ManageStep::Unknown,
            ManageRequest::AddAdmin(name) | ManageRequest::RemoveAdmin(name) => {
                let promote = f.request is AddAdmin;
                if role_change_refusal_text(caller@, opt_chars(name), promote) is Some {
                    ManageStep::Refuse
                } else {
                    match f.target {
                        None => ManageStep::LookUpTarget,
                        Some(Ok(None)) => ManageStep::TargetMissing(true),
                        Some(Err(_)) => ManageStep::TargetMissing(false),
                        Some(Ok(Some(g))) => match role_change_spec(promote, g@) {
                            RoleChangeView::Keep(_) => ManageStep::Keep,
                            RoleChangeView::Store(_) => match f.saved {
                                None => ManageStep::Store,
                                Some(ok) => ManageStep::Stored(ok),
                            },
                        },
                    }
                }
            },
        },
    }
}

/// The next step of `/manage`.
pub fn manage_step(f: &ManageFacts) -> (r: ManageStep)
    ensures
        r == manage_step_spec(*f),
{
    let caller = match &f.caller {
        None => return ManageStep::IdentifyCaller,
        Some(None) => return ManageStep::NotAdmin,
        Some(Some(c)) => c,
    };
    let (name, promote) = match &f.request {
        ManageRequest::Usage => return ManageStep::Usage,
        ManageRequest::ListAdmins => return ManageStep::ListAdmins,
        ManageRequest::Unknown => return ManageStep::Unknown,
        ManageRequest::AddAdmin(n) => (n, true),
        ManageRequest::RemoveAdmin(n) => (n, false),
    };
    if role_change_refusal(caller, name, promote).is_some() {
        return ManageStep::Refuse;
    }
    match &f.target {
        None => ManageStep::LookUpTarget,
        Some(Ok(None)) => ManageStep::TargetMissing(true),
        Some(Err(_)) => ManageStep::TargetMissing(false),
        Some(Ok(Some(g))) => {
            let keeps = if promote {
                g.is_admin
            } else {
                !g.is_admin || g.is_superadmin
            };
            if keeps {
                ManageStep::Keep
            } else {
                match f.saved {
                    None => ManageStep::Store,
                    Some(ok) => ManageStep::Stored(ok),
                }
            }
        },
    }
}

/// Only a superadmin's `/manage` ever stores a role change.
pub proof fn lemma_only_superadmins_change_roles(f: ManageFacts)
    requires
        manage_step_spec(f) == ManageStep::Store,
    ensures
        f.caller matches Some(Some(c)) && c.is_superadmin,
{
}

// ---------------------------------------------------------------------------
// /psn
// ---------------------------------------------------------------------------

/// What is known so far while a sender links a PSN name. `None` marks what
/// has not been looked up (or stored) yet.
pub struct PsnFacts {
    /// The PSN name given.
    pub name: Option<String>,
    /// The sender's Telegram id and username, where the message has a sender.
    pub sender: Option<(i64, Option<String>)>,
    /// The sender's guardian record, by Telegram id (`Err` where the query
    /// failed).
    pub existing: Option<Result<Option<Guardian>, ()>>,
    /// Whether storing the new record succeeded.
    pub saved: Option<bool>,
}

/// How a `/psn` ends.
#[derive(Clone, Copy, PartialEq, Eq, Structural)]
pub enum PsnReply {
    NoSender,
    SenderQueryFailed,
    AlreadyRegistered,
    InsertFailed,
    Inserted,
}

/// The next step in linking a PSN name.
#[derive(Clone, Copy, PartialEq, Eq, Structural)]
pub enum PsnStep {
    /// Show the usage.
    Usage,
    /// Look up the guardian with this Telegram id.
    LookUpSender(i64),
    /// Store a new guardian (see `psn_new_guardian`).
    Insert,
    Reply(PsnReply),
}

/// The next step in linking a PSN name: a new sender is registered; a sender
/// who is registered already is told so, and nothing is stored.
pub open spec fn psn_step_spec(f: PsnFacts) -> PsnStep {
    match f.name {
        None => PsnStep::Usage,
        Some(_) => match f.sender {
            None => PsnStep::Reply(PsnReply::NoSender),
            Some((tid, username)) => match username {
                None => PsnStep::Usage,
                Some(_) => match f.existing {
                    None => PsnStep::LookUpSender(tid),
                    Some(Err(_)) => PsnStep::Reply(PsnReply::SenderQueryFailed),
                    Some(Ok(Some(_))) => PsnStep::Reply(PsnReply::AlreadyRegistered),
                    Some(Ok(None)) => match f.saved {
                        None => PsnStep::Insert,
                        Some(false) => PsnStep::Reply(PsnReply::InsertFailed),
                        Some(true) => PsnStep::Reply(PsnReply::Inserted),
                    },
                },
            },
        },
    }
}

/// The next step in linking a PSN name.
pub fn psn_step(f: &PsnFacts) -> (r: PsnStep)
    ensures
        r == psn_step_spec(*f),
{
    if f.name.is_none() {
        return PsnStep::Usage;
    }
    let (tid, has_username) = match &f.sender {
        None => return PsnStep::Reply(PsnReply::NoSender),
        Some((tid, username)) => (*tid, username.is_some()),
    };
    if !has_username {
        return PsnStep::Usage;
    }
    match &f.existing {
        None => PsnStep::LookUpSender(tid),
        Some(Err(_)) => PsnStep::Reply(PsnReply::SenderQueryFailed),
        Some(Ok(Some(_))) => PsnStep::Reply(PsnReply::AlreadyRegistered),
        Some(Ok(None)) => match f.saved {
            None => PsnStep::Insert,
            Some(false) => PsnStep::Reply(PsnReply::InsertFailed),
            Some(true) => PsnStep::Reply(PsnReply::Inserted),
        },
    }
}

/// A registered sender's `/psn` stores nothing: a record is inserted only
/// where the lookup found no record for the sender's Telegram id.
pub proof fn lemma_psn_registers_once(f: PsnFacts)
    requires
        f.existing matches Some(Ok(Some(_))),
        f.name is Some,
        f.sender matches Some((_, u)) && u is Some,
    ensures
        psn_step_spec(f) == PsnStep::Reply(PsnReply::AlreadyRegistered),
{
}

/// The usage of `/psn`.
pub open spec fn psn_usage_text() -> Seq<char> {
    "PSN command help:\n\n/psn <PSN name>\n    Link your Telegram account to your PSN account."@
}

/// The usage of `/psn`.
pub fn psn_usage() -> (r: String)
    ensures
        r@ == psn_usage_text(),
{
    "PSN command help:\n\n/psn <PSN name>\n    Link your Telegram account to your PSN account.".to_owned()
}

/// The reply that ends a `/psn NAME`.
pub open spec fn psn_reply_text(r: PsnReply, name: Seq<char>) -> Seq<char> {
    match r {
        PsnReply::NoSender => "Message has no sender info."@,
        PsnReply::SenderQueryFailed => "Error querying guardian name."@,
        PsnReply::AlreadyRegistered => "You are already registered."@,
        PsnReply::InsertFailed => "Error saving guardian info."@,
        PsnReply::Inserted => "Your PSN name is now set to "@ + name + "."@,
    }
}

impl PsnReply {
    /// The reply that ends a `/psn NAME`.
    pub fn text(&self, name: &str) -> (r: String)
        ensures
            r@ == psn_reply_text(*self, name@),
    {
        match self {
            PsnReply::NoSender => "Message has no sender info.".to_owned(),
            PsnReply::SenderQueryFailed => "Error querying guardian name.".to_owned(),
            PsnReply::AlreadyRegistered => "You are already registered.".to_owned(),
            PsnReply::InsertFailed => "Error saving guardian info.".to_owned(),
            PsnReply::Inserted => concat3("Your PSN name is now set to ", name, "."),
        }
    }
}

/// The guardian a new sender becomes.
pub fn psn_new_guardian(username: &str, telegram_id: i64, name: &str) -> (r: NewGuardian)
    ensures
        r.telegram_name@ == username@,
        r.telegram_id == telegram_id,
        r.psn_name@ == name@,
{
    NewGuardian { telegram_name: username.to_owned(), telegram_id, psn_name: name.to_owned() }
}

} // verus!
