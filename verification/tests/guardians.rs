use aegl_bot::guardians::{
    admins_list_reply, demote, edit_guardian, editguar_request, editguar_step, guardian_edit_reply,
    guardian_field, guardian_info, manage_request, named_guardian, promote, psn_new_guardian,
    psn_step, psn_usage, role_change_refusal, role_saved_reply, whois_reply,
    whois_usage_reply, manage_step, EditGuardianFacts, EditGuardianRequest, EditGuardianStep,
    GuardianField, LookupFor, ManageFacts, ManageRequest, ManageStep, PsnFacts, PsnReply, PsnStep,
    RoleChange,
};
use aegl_bot::models::Guardian;

fn guardian(tg: &str, psn: &str) -> Guardian {
    Guardian {
        id: 1,
        telegram_name: tg.to_string(),
        telegram_id: 100,
        psn_name: psn.to_string(),
        email: None,
        psn_clan: None,
        created_at: 0,
        updated_at: 0,
        deleted_at: None,
        pending_activation_code: None,
        is_admin: false,
        is_superadmin: false,
    }
}

#[test]
fn whois_replies() {
    assert_eq!(
        whois_reply("@berkus", Ok(Some(guardian("berkus", "dozniak")))),
        "Guardian @berkus PSN dozniak"
    );
    assert_eq!(whois_reply("nobody", Ok(None)), "Guardian nobody was not found.");
    assert_eq!(whois_reply("x", Err(())), "Error querying guardian name.");
    assert_eq!(
        whois_usage_reply(),
        "To query user provide his @TelegramId (starting with @) or PsnId"
    );
}

#[test]
fn named_lookups_word_their_replies() {
    assert_eq!(
        named_guardian(LookupFor::Editing, "zed", Ok(None)).err(),
        Some("❌ Guardian zed was not found.".to_string())
    );
    assert_eq!(
        named_guardian(LookupFor::Editing, "zed", Err(())).err(),
        Some("❌ Error querying guardian by name.".to_string())
    );
    assert_eq!(
        named_guardian(LookupFor::Promoting, "zed", Err(())).err(),
        Some("❌ Error querying guardian name.".to_string())
    );
    assert_eq!(
        named_guardian(LookupFor::Demoting, "zed", Ok(None)).err(),
        Some("Guardian zed was not found.".to_string())
    );
    let g = named_guardian(LookupFor::Whois, "x", Ok(Some(guardian("a", "b")))).unwrap();
    assert_eq!(g.psn_name, "b");
}

#[test]
fn editguar_arguments() {
    assert!(matches!(editguar_request(&None), EditGuardianRequest::Usage));
    assert!(matches!(
        editguar_request(&Some("my psn".to_string())),
        EditGuardianRequest::Usage
    ));
    match editguar_request(&Some("my".to_string())) {
        EditGuardianRequest::Show { target } => assert_eq!(target, None),
        _ => panic!("expected Show"),
    }
    match editguar_request(&Some("@berkus clan The Clan".to_string())) {
        EditGuardianRequest::Change { target, field, value } => {
            assert_eq!(target, Some("@berkus".to_string()));
            assert_eq!(field, "clan");
            assert_eq!(value, "The Clan");
        }
        _ => panic!("expected Change"),
    }
}

#[test]
fn guardian_record_display() {
    let mut g = guardian("berkus", "dozniak");
    assert_eq!(guardian_info(&g), "berkus <no email> ");
    g.psn_clan = Some("AEGL".to_string());
    g.email = Some("b@example.com".to_string());
    g.is_admin = true;
    assert_eq!(guardian_info(&g), "[AEGL] berkus b@example.com <admin>");
    g.is_superadmin = true;
    assert_eq!(guardian_info(&g), "[AEGL] berkus b@example.com <superadmin>");
}

#[test]
fn guardian_field_changes() {
    assert!(guardian_field("psn") == Some(GuardianField::Psn));
    assert!(guardian_field("clan") == Some(GuardianField::Clan));
    assert!(guardian_field("email") == Some(GuardianField::Email));
    assert!(guardian_field("name").is_none());
    let g = edit_guardian(guardian("a", "b"), GuardianField::Psn, "newpsn");
    assert_eq!(g.psn_name, "newpsn");
    let g = edit_guardian(g, GuardianField::Clan, "AEGL");
    assert_eq!(g.psn_clan, Some("AEGL".to_string()));
    let g = edit_guardian(g, GuardianField::Clan, "delete");
    assert_eq!(g.psn_clan, None);
    let g = edit_guardian(g, GuardianField::Email, "x@y.z");
    assert_eq!(g.email, Some("x@y.z".to_string()));
    assert_eq!(g.telegram_name, "a");
    assert_eq!(guardian_edit_reply(None, true), "⁉️ Unknown information field");
    assert_eq!(guardian_edit_reply(Some(GuardianField::Psn), true), "✅ PSN updated successfully");
    assert_eq!(guardian_edit_reply(Some(GuardianField::Psn), false), "❌ Failed to update PSN");
    assert_eq!(guardian_edit_reply(Some(GuardianField::Clan), true), "✅ Updated guardian clan");
    assert_eq!(guardian_edit_reply(Some(GuardianField::Email), false), "❌ Failed to update email");
}

#[test]
fn manage_arguments() {
    assert!(matches!(manage_request(&None), ManageRequest::Usage));
    assert!(matches!(manage_request(&Some("list-admins".to_string())), ManageRequest::ListAdmins));
    match manage_request(&Some("add-admin @zed".to_string())) {
        ManageRequest::AddAdmin(n) => assert_eq!(n, Some("@zed".to_string())),
        _ => panic!("expected AddAdmin"),
    }
    match manage_request(&Some("remove-admin".to_string())) {
        ManageRequest::RemoveAdmin(n) => assert_eq!(n, None),
        _ => panic!("expected RemoveAdmin"),
    }
    assert!(matches!(manage_request(&Some("reboot now".to_string())), ManageRequest::Unknown));
}

#[test]
fn admin_listing() {
    assert_eq!(admins_list_reply(&vec![]), "No admins found");
    let list = vec![guardian("a", "pa"), guardian("b", "pb")];
    assert_eq!(
        admins_list_reply(&list),
        "Existing admins:\n\npa (t.me/a)\npb (t.me/b)\n"
    );
}

#[test]
fn promotion_and_demotion() {
    let mut caller = guardian("boss", "boss");
    caller.is_admin = true;
    assert_eq!(
        role_change_refusal(&caller, &Some("x".to_string()), true),
        Some("❌ You are not superadmin".to_string())
    );
    caller.is_superadmin = true;
    assert_eq!(
        role_change_refusal(&caller, &None, true),
        Some("❌ Specify a guardian to promote to admin".to_string())
    );
    assert_eq!(
        role_change_refusal(&caller, &None, false),
        Some("❌ Specify a guardian to demote from admins".to_string())
    );
    assert_eq!(role_change_refusal(&caller, &Some("x".to_string()), false), None);

    let promoted = match promote(guardian("zed", "z")) {
        RoleChange::Store(g) => g,
        RoleChange::Keep(_) => panic!("expected a change"),
    };
    assert!(promoted.is_admin);
    match promote(promoted) {
        RoleChange::Keep(t) => assert_eq!(t, "✅ @zed is already an admin"),
        RoleChange::Store(_) => panic!("expected no change"),
    }
    let mut admin = guardian("zed", "z");
    admin.is_admin = true;
    match demote(admin) {
        RoleChange::Store(g) => assert!(!g.is_admin),
        RoleChange::Keep(_) => panic!("expected a change"),
    }
    match demote(guardian("zed", "z")) {
        RoleChange::Keep(t) => assert_eq!(t, "✅ @zed is already not an admin"),
        RoleChange::Store(_) => panic!("expected no change"),
    }
    let mut sup = guardian("top", "t");
    sup.is_admin = true;
    sup.is_superadmin = true;
    match demote(sup) {
        RoleChange::Keep(t) => assert_eq!(t, "❌ @top is a superadmin, you can not demote."),
        RoleChange::Store(_) => panic!("expected no change"),
    }
    assert_eq!(role_saved_reply(true, "zed", true), "✅ @zed is now an admin!");
    assert_eq!(role_saved_reply(false, "zed", true), "✅ @zed is not an admin anymore!");
    assert_eq!(role_saved_reply(false, "zed", false), "Error updating guardian");
}

fn psn_facts() -> PsnFacts {
    PsnFacts {
        name: Some("PUSHISTIK_79".to_string()),
        sender: Some((100, Some("tguser".to_string()))),
        existing: None,
        saved: None,
    }
}

#[test]
fn linking_a_psn_name_step_by_step() {
    let mut f = psn_facts();
    assert!(psn_step(&f) == PsnStep::LookUpSender(100));
    f.existing = Some(Err(()));
    assert!(psn_step(&f) == PsnStep::Reply(PsnReply::SenderQueryFailed));
    f.existing = Some(Ok(None));
    assert!(psn_step(&f) == PsnStep::Insert);
    f.saved = Some(true);
    assert!(psn_step(&f) == PsnStep::Reply(PsnReply::Inserted));
    f.saved = Some(false);
    assert!(psn_step(&f) == PsnStep::Reply(PsnReply::InsertFailed));
    // A registered sender is told so, and nothing is stored.
    f.saved = None;
    f.existing = Some(Ok(Some(guardian("old", "oldpsn"))));
    assert!(psn_step(&f) == PsnStep::Reply(PsnReply::AlreadyRegistered));
    f.sender = Some((100, None));
    assert!(psn_step(&f) == PsnStep::Usage);
    f.sender = None;
    assert!(psn_step(&f) == PsnStep::Reply(PsnReply::NoSender));
    f.name = None;
    assert!(psn_step(&f) == PsnStep::Usage);
}

#[test]
fn psn_replies_and_records() {
    assert_eq!(PsnReply::Inserted.text("P1"), "Your PSN name is now set to P1.");
    assert_eq!(PsnReply::AlreadyRegistered.text("P1"), "You are already registered.");
    assert_eq!(PsnReply::NoSender.text("P1"), "Message has no sender info.");
    assert_eq!(PsnReply::InsertFailed.text("P1"), "Error saving guardian info.");
    assert_eq!(PsnReply::SenderQueryFailed.text("P1"), "Error querying guardian name.");
    assert!(psn_usage().starts_with("PSN command help:"));
    let n = psn_new_guardian("tguser", 100, "P1");
    assert_eq!((n.telegram_name.as_str(), n.telegram_id, n.psn_name.as_str()), ("tguser", 100, "P1"));
}

fn admin(tg: &str, superadmin: bool) -> Guardian {
    let mut g = guardian(tg, tg);
    g.is_admin = true;
    g.is_superadmin = superadmin;
    g
}

#[test]
fn editguar_step_by_step() {
    let mine = |sender: Option<Option<Guardian>>| EditGuardianFacts {
        request: editguar_request(&Some("my email x@y.z".to_string())),
        sender,
        named: None,
        saved: None,
    };
    assert!(editguar_step(&mine(None)) == EditGuardianStep::IdentifySender);
    assert!(editguar_step(&mine(Some(None))) == EditGuardianStep::Stop);
    assert!(editguar_step(&mine(Some(Some(guardian("a", "b"))))) == EditGuardianStep::Store(GuardianField::Email));
    let mut f = mine(Some(Some(guardian("a", "b"))));
    f.saved = Some(true);
    assert!(editguar_step(&f) == EditGuardianStep::Stored(GuardianField::Email, true));

    let named = |sender: Option<Option<Guardian>>, named| EditGuardianFacts {
        request: editguar_request(&Some("@zed".to_string())),
        sender,
        named,
        saved: None,
    };
    assert!(editguar_step(&named(Some(Some(guardian("a", "b"))), None)) == EditGuardianStep::NotAdmin);
    assert!(editguar_step(&named(Some(None), None)) == EditGuardianStep::NotAdmin);
    assert!(editguar_step(&named(Some(Some(admin("a", false))), None)) == EditGuardianStep::LookUpNamed);
    assert!(editguar_step(&named(Some(Some(admin("a", false))), Some(Ok(None)))) == EditGuardianStep::NamedMissing(true));
    assert!(editguar_step(&named(Some(Some(admin("a", false))), Some(Err(())))) == EditGuardianStep::NamedMissing(false));
    assert!(editguar_step(&named(Some(Some(admin("a", false))), Some(Ok(Some(guardian("zed", "z")))))) == EditGuardianStep::Show);

    let unknown = EditGuardianFacts {
        request: editguar_request(&Some("my nick zz".to_string())),
        sender: Some(Some(guardian("a", "b"))),
        named: None,
        saved: None,
    };
    assert!(editguar_step(&unknown) == EditGuardianStep::UnknownField);
    let usage = EditGuardianFacts { request: editguar_request(&None), sender: None, named: None, saved: None };
    assert!(editguar_step(&usage) == EditGuardianStep::Usage);
}

#[test]
fn manage_step_by_step() {
    let facts = |args: &str, caller: Option<Option<Guardian>>, target, saved| ManageFacts {
        request: manage_request(&Some(args.to_string())),
        caller,
        target,
        saved,
    };
    assert!(manage_step(&facts("list-admins", None, None, None)) == ManageStep::IdentifyCaller);
    assert!(manage_step(&facts("list-admins", Some(None), None, None)) == ManageStep::NotAdmin);
    assert!(manage_step(&facts("list-admins", Some(Some(admin("a", false))), None, None)) == ManageStep::ListAdmins);
    assert!(manage_step(&facts("reboot", Some(Some(admin("a", false))), None, None)) == ManageStep::Unknown);
    let usage = ManageFacts { request: manage_request(&None), caller: Some(Some(admin("a", false))), target: None, saved: None };
    assert!(manage_step(&usage) == ManageStep::Usage);
    assert!(manage_step(&facts("add-admin @zed", Some(Some(admin("a", false))), None, None)) == ManageStep::Refuse);
    assert!(manage_step(&facts("add-admin", Some(Some(admin("a", true))), None, None)) == ManageStep::Refuse);
    assert!(manage_step(&facts("add-admin @zed", Some(Some(admin("a", true))), None, None)) == ManageStep::LookUpTarget);
    assert!(manage_step(&facts("add-admin @zed", Some(Some(admin("a", true))), Some(Ok(None)), None)) == ManageStep::TargetMissing(true));
    assert!(manage_step(&facts("add-admin @zed", Some(Some(admin("a", true))), Some(Ok(Some(guardian("zed", "z")))), None)) == ManageStep::Store);
    assert!(manage_step(&facts("add-admin @zed", Some(Some(admin("a", true))), Some(Ok(Some(guardian("zed", "z")))), Some(true))) == ManageStep::Stored(true));
    assert!(manage_step(&facts("add-admin @zed", Some(Some(admin("a", true))), Some(Ok(Some(admin("zed", false)))), None)) == ManageStep::Keep);
    assert!(manage_step(&facts("remove-admin @zed", Some(Some(admin("a", true))), Some(Ok(Some(admin("zed", true)))), None)) == ManageStep::Keep);
    assert!(manage_step(&facts("remove-admin @zed", Some(Some(admin("a", true))), Some(Ok(Some(admin("zed", false)))), None)) == ManageStep::Store);
    assert!(manage_step(&facts("remove-admin @zed", Some(Some(admin("a", true))), Some(Err(())), None)) == ManageStep::TargetMissing(false));
}
