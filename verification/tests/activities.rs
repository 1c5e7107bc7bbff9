use aegl_bot::activities::{
    activities_reply, activities_request, activities_step, activity_from_args, activity_ids_reply,
    apply_activity_edits, change_done_reply, change_failed_reply, shortcut_rows,
    shortcut_saved_reply, ActivitiesFacts, ActivitiesRequest, ActivitiesStep, ActivityChange,
};
use aegl_bot::kvargs::parse_kv_args;
use aegl_bot::models::{Activity, ActivityShortcut};

fn req(s: &str) -> ActivitiesRequest {
    activities_request(&Some(s.to_string()))
}

fn refusal(r: ActivitiesRequest) -> (String, bool) {
    match r {
        ActivitiesRequest::Refuse { text, then_usage } => (text, then_usage),
        _ => panic!("expected a refusal"),
    }
}

fn activity() -> Activity {
    Activity {
        id: 5,
        name: "King's Fall".to_string(),
        mode: Some("normal".to_string()),
        min_fireteam_size: 1,
        max_fireteam_size: 6,
        min_light: Some(290),
        min_level: Some(35),
    }
}

#[test]
fn activities_subcommands() {
    let all = activities_request(&None);
    assert!(matches!(all, ActivitiesRequest::ListAll));
    assert!(!all.needs_admin());
    let ids = req("ids");
    assert!(matches!(ids, ActivitiesRequest::Ids));
    assert!(ids.needs_admin());
    match req("add name=Raid min_fireteam_size=1 max_fireteam_size=6") {
        ActivitiesRequest::Add(kv) => assert_eq!(kv.len(), 3),
        _ => panic!("expected Add"),
    }
    match req("addsc 7 kfn Destiny 1") {
        ActivitiesRequest::AddShortcut { link, name, game } => {
            assert_eq!((link, name.as_str(), game.as_str()), (7, "kfn", "Destiny 1"))
        }
        _ => panic!("expected AddShortcut"),
    }
    match req("edit 7 mode=hard") {
        ActivitiesRequest::Edit { id, args } => {
            assert_eq!(id, 7);
            assert_eq!(args.get("mode"), Some("hard".to_string()));
        }
        _ => panic!("expected Edit"),
    }
    assert!(matches!(req("delete 7"), ActivitiesRequest::Delete(7)));
    assert_eq!(refusal(req("add")), ("❓ Syntax: /activities add KV".to_string(), true));
    assert_eq!(
        refusal(req("add nothing here")),
        ("❌ Invalid activity specification, see help.".to_string(), false)
    );
    assert_eq!(
        refusal(req("addsc 7 kfn")),
        (
            "❌ To add a shortcut specify 1) activity ID, 2) shortcut name and then 3) the game name"
                .to_string(),
            false
        )
    );
    assert_eq!(refusal(req("addsc x kfn D1")), ("❌ ActivityID must be a number".to_string(), false));
    assert_eq!(
        refusal(req("edit 7")),
        ("❌ To edit first specify Activity ID and then key=value pairs".to_string(), false)
    );
    assert_eq!(refusal(req("delete")), ("❓ Syntax: /activities delete ID".to_string(), true));
    assert_eq!(refusal(req("delete x")), ("❌ Activity ID must be a number".to_string(), false));
    assert_eq!(refusal(req("frobnicate")), ("❌ Unknown activities operation".to_string(), true));
}

#[test]
fn adding_an_activity_reads_its_fields() {
    let kv = parse_kv_args(
        r#"name="Last Wish" min_fireteam_size=1 max_fireteam_size=6 mode=prestige min_light=300 shortcut=lwp game=Destiny"#,
    )
    .unwrap();
    let plan = activity_from_args(&kv).ok().unwrap();
    assert_eq!(plan.activity.name, "Last Wish");
    assert_eq!(plan.activity.mode, Some("prestige".to_string()));
    assert_eq!(plan.activity.min_fireteam_size, 1);
    assert_eq!(plan.activity.max_fireteam_size, 6);
    assert_eq!(plan.activity.min_light, Some(300));
    assert_eq!(plan.activity.min_level, None);
    assert_eq!(plan.shortcut, Some(("lwp".to_string(), "Destiny".to_string())));

    let kv = parse_kv_args("name=X min_fireteam_size=1 max_fireteam_size=6 shortcut=x").unwrap();
    assert_eq!(activity_from_args(&kv).ok().unwrap().shortcut, None);
}

#[test]
fn adding_an_activity_refuses_missing_or_bad_fields() {
    let err = |s: &str| activity_from_args(&parse_kv_args(s).unwrap()).err().unwrap();
    assert_eq!(err("mode=x"), "❌ Must specify activity name, see help.");
    assert_eq!(err("name=x"), "❌ Must specify min_fireteam_size, see help.");
    assert_eq!(err("name=x min_fireteam_size=a"), "❌ min_fireteam_size must be a number");
    assert_eq!(err("name=x min_fireteam_size=1"), "❌ Must specify max_fireteam_size, see help.");
    assert_eq!(
        err("name=x min_fireteam_size=1 max_fireteam_size=z"),
        "❌ max_fireteam_size must be a number"
    );
    assert_eq!(
        err("name=x min_fireteam_size=1 max_fireteam_size=2 min_light=q"),
        "❌ min_light must be a number"
    );
    assert_eq!(
        err("name=x min_fireteam_size=1 max_fireteam_size=2 min_level=q"),
        "❌ min_level must be a number"
    );
}

#[test]
fn editing_an_activity() {
    let kv = parse_kv_args("mode=hard min_level=40 name=Raid").unwrap();
    let a = apply_activity_edits(activity(), &kv).ok().unwrap();
    assert_eq!(a.name, "Raid");
    assert_eq!(a.mode, Some("hard".to_string()));
    assert_eq!(a.min_level, Some(40));
    assert_eq!((a.id, a.min_fireteam_size, a.max_fireteam_size, a.min_light), (5, 1, 6, Some(290)));

    let kv = parse_kv_args("mode=hard colour=red").unwrap();
    assert_eq!(
        apply_activity_edits(activity(), &kv).err(),
        Some("❌ Unknown field name colour".to_string())
    );
    let kv = parse_kv_args("max_fireteam_size=lots").unwrap();
    assert_eq!(
        apply_activity_edits(activity(), &kv).err(),
        Some("❌ max_fireteam_size must be a number".to_string())
    );
}

#[test]
fn activity_replies() {
    let a = activity();
    assert_eq!(change_done_reply(ActivityChange::Added, &a), "✅ Activity King's Fall normal added.");
    assert_eq!(change_done_reply(ActivityChange::Updated, &a), "✅ Activity King's Fall normal updated.");
    assert_eq!(change_done_reply(ActivityChange::Deleted, &a), "✅ Activity King's Fall normal deleted.");
    assert_eq!(change_failed_reply(ActivityChange::Added, "E"), "❌ Error creating activity. E");
    assert_eq!(change_failed_reply(ActivityChange::Updated, "E"), "❌ Error updating activity. E");
    assert_eq!(change_failed_reply(ActivityChange::Deleted, "E"), "❌ Error deleting activity. E");
    assert_eq!(shortcut_saved_reply(true), "✅ Shortcut added");
    assert_eq!(shortcut_saved_reply(false), "❌ Error creating shortcut");
    let mut b = activity();
    b.id = 9;
    b.name = "Patrol".to_string();
    b.mode = None;
    assert_eq!(
        activity_ids_reply(&vec![activity(), b]),
        "Activities:\n\n5. King's Fall normal\n9. Patrol \n"
    );
}

#[test]
fn shortcut_listing_rows() {
    let sc = ActivityShortcut { id: 1, name: "kfn".to_string(), game: "Destiny".to_string(), link: 5 };
    let rows = shortcut_rows(&vec![(sc, activity())]);
    assert_eq!(rows.len(), 1);
    assert_eq!(rows[0].game, "Destiny");
    assert_eq!(rows[0].shortcut, "kfn");
    assert_eq!(rows[0].activity, "King's Fall normal");
}

fn facts(r: &str, is_admin: Option<bool>) -> ActivitiesFacts {
    ActivitiesFacts {
        request: if r.is_empty() { activities_request(&None) } else { req(r) },
        is_admin,
        found: None,
        stored: None,
        deleted: None,
        announced: false,
        shortcut_saved: None,
    }
}

#[test]
fn activities_listing_needs_no_admin() {
    let f = facts("", None);
    assert_eq!(activities_step(&f), ActivitiesStep::ListShortcuts);
    assert_eq!(activities_reply(&f, ActivitiesStep::ListShortcuts), None);
}

#[test]
fn activities_non_admin_is_refused() {
    for r in ["ids", "delete 3", "edit 3 name=X", "addsc 3 kf Destiny", "add name=X", "frobnicate"] {
        let f = facts(r, None);
        assert_eq!(activities_step(&f), ActivitiesStep::CheckAdmin);
        let f = facts(r, Some(false));
        let step = activities_step(&f);
        assert_eq!(step, ActivitiesStep::NotAdmin);
        assert_eq!(activities_reply(&f, step), Some("❌ You are not admin".to_string()));
    }
}

#[test]
fn activities_delete_flow() {
    let mut f = facts("delete 5", Some(true));
    assert_eq!(activities_step(&f), ActivitiesStep::LookUp(5));
    f.found = Some(None);
    let step = activities_step(&f);
    assert_eq!(step, ActivitiesStep::NotFound(5));
    assert_eq!(activities_reply(&f, step), Some("❌ Activity 5 was not found.".to_string()));
    f.found = Some(Some(activity()));
    assert_eq!(activities_step(&f), ActivitiesStep::Delete(5));
    f.deleted = Some(Ok(()));
    let step = activities_step(&f);
    assert_eq!(step, ActivitiesStep::Done(ActivityChange::Deleted));
    assert_eq!(activities_reply(&f, step), Some("✅ Activity King's Fall normal deleted.".to_string()));
    f.deleted = Some(Err("db down".to_string()));
    let step = activities_step(&f);
    assert_eq!(step, ActivitiesStep::StoreFailed(ActivityChange::Deleted));
    assert_eq!(activities_reply(&f, step), Some("❌ Error deleting activity. db down".to_string()));
}

#[test]
fn activities_edit_flow() {
    let mut f = facts("edit 5 max_fireteam_size=3", Some(true));
    assert_eq!(activities_step(&f), ActivitiesStep::LookUp(5));
    f.found = Some(None);
    assert_eq!(activities_step(&f), ActivitiesStep::NotFound(5));
    f.found = Some(Some(activity()));
    assert_eq!(activities_step(&f), ActivitiesStep::Update);
    let mut changed = activity();
    changed.max_fireteam_size = 3;
    f.stored = Some(Ok(changed));
    let step = activities_step(&f);
    assert_eq!(step, ActivitiesStep::Done(ActivityChange::Updated));
    assert_eq!(activities_reply(&f, step), Some("✅ Activity King's Fall normal updated.".to_string()));
    let mut bad = facts("edit 5 colour=red", Some(true));
    bad.found = Some(Some(activity()));
    let step = activities_step(&bad);
    assert_eq!(step, ActivitiesStep::BadFields);
    assert_eq!(activities_reply(&bad, step), Some("❌ Unknown field name colour".to_string()));
}

#[test]
fn activities_add_flow() {
    let mut f = facts("add name=Raid min_fireteam_size=1 max_fireteam_size=6 shortcut=r game=D2", Some(true));
    assert_eq!(activities_step(&f), ActivitiesStep::Insert);
    let mut stored = activity();
    stored.id = 9;
    stored.name = "Raid".to_string();
    stored.mode = None;
    f.stored = Some(Ok(stored));
    let step = activities_step(&f);
    assert_eq!(step, ActivitiesStep::Announce);
    assert_eq!(activities_reply(&f, step), Some("✅ Activity Raid  added.".to_string()));
    f.announced = true;
    assert_eq!(activities_step(&f), ActivitiesStep::LookUp(9));
    f.found = Some(Some(activity()));
    assert_eq!(activities_step(&f), ActivitiesStep::StoreShortcut(9));
    f.shortcut_saved = Some(true);
    let step = activities_step(&f);
    assert_eq!(step, ActivitiesStep::ShortcutSaved(true));
    assert_eq!(activities_reply(&f, step), Some("✅ Shortcut added".to_string()));
    let mut plain = facts("add name=Raid min_fireteam_size=1 max_fireteam_size=6", Some(true));
    plain.stored = Some(Ok(activity()));
    plain.announced = true;
    assert_eq!(activities_step(&plain), ActivitiesStep::Finished);
    let mut failed = facts("add name=Raid min_fireteam_size=1 max_fireteam_size=6", Some(true));
    failed.stored = Some(Err("dup".to_string()));
    let step = activities_step(&failed);
    assert_eq!(step, ActivitiesStep::StoreFailed(ActivityChange::Added));
    assert_eq!(activities_reply(&failed, step), Some("❌ Error creating activity. dup".to_string()));
    let missing = facts("add min_fireteam_size=1", Some(true));
    let step = activities_step(&missing);
    assert_eq!(step, ActivitiesStep::BadFields);
    assert_eq!(activities_reply(&missing, step), Some("❌ Must specify activity name, see help.".to_string()));
}

#[test]
fn activities_addsc_and_refusals() {
    let mut f = facts("addsc 7 kf Destiny 2", Some(true));
    assert_eq!(activities_step(&f), ActivitiesStep::LookUp(7));
    f.found = Some(None);
    let step = activities_step(&f);
    assert_eq!(step, ActivitiesStep::NotFound(7));
    assert_eq!(activities_reply(&f, step), Some("❌ Activity 7 was not found.".to_string()));
    f.found = Some(Some(activity()));
    f.shortcut_saved = Some(false);
    let step = activities_step(&f);
    assert_eq!(step, ActivitiesStep::ShortcutSaved(false));
    assert_eq!(activities_reply(&f, step), Some("❌ Error creating shortcut".to_string()));
    let ids = facts("ids", Some(true));
    assert_eq!(activities_step(&ids), ActivitiesStep::ListIds);
    let bad = facts("delete x", Some(true));
    let step = activities_step(&bad);
    assert_eq!(step, ActivitiesStep::Refuse);
    assert_eq!(activities_reply(&bad, step), Some("❌ Activity ID must be a number".to_string()));
}
