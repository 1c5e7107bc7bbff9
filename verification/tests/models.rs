use aegl_bot::models::{
    Activity, ActivityMemberTemplate, Alert, Guardian, PlannedActivity, PlannedActivityMember,
};

fn activity(max: i32) -> Activity {
    Activity {
        id: 9,
        name: "Vault of Glass".to_string(),
        mode: Some("hard".to_string()),
        min_fireteam_size: 2,
        max_fireteam_size: max,
        min_light: None,
        min_level: None,
    }
}

fn guardian(id: i32, tg: &str, psn: &str) -> Guardian {
    Guardian {
        id,
        telegram_name: tg.to_string(),
        telegram_id: 100,
        psn_name: psn.to_string(),
        email: None,
        psn_clan: None,
        created_at: 0,
        updated_at: 0,
        deleted_at: None,
        pending_activation_code: None,
        is_admin: false,
        is_superadmin: false,
    }
}

fn alert(title: &str, kind: &str, start: i64, expiry: Option<i64>) -> Alert {
    Alert {
        id: 1,
        guid: "g".to_string(),
        title: title.to_string(),
        kind: kind.to_string(),
        start_date: start,
        expiry_date: expiry,
        faction: None,
        flavor: None,
    }
}

#[test]
fn activity_names() {
    assert_eq!(activity(6).format_name(), "Vault of Glass hard");
    let mut a = activity(6);
    a.mode = None;
    assert_eq!(a.format_name(), "Vault of Glass ");
}

#[test]
fn alert_icons_and_importance() {
    assert_eq!(alert("x", "Alert", 0, None).type_icon(), "✊");
    assert_eq!(alert("x", "Invasion", 0, None).type_icon(), "🐛");
    assert_eq!(alert("x", "Outbreak", 0, None).type_icon(), "⛓");
    assert_eq!(alert("x", "Sortie", 0, None).type_icon(), "⁉️ Sortie");
    assert_eq!(alert("Forma Blueprint", "Alert", 0, None).reward_icon(), "⚖");
    assert_eq!(alert("Nitain Extract", "Alert", 0, None).reward_icon(), "✨");
    assert_eq!(alert("Vauban (Blueprint)", "Alert", 0, None).reward_icon(), "🗿");
    assert_eq!(alert("Serration (Mod)", "Alert", 0, None).reward_icon(), "⚙");
    assert_eq!(alert("9000cr + something", "Alert", 0, None).reward_icon(), "💰");
    assert!(alert("9000cr + something", "Alert", 0, None).is_credits());
    assert!(!alert("cr 9000 ", "Alert", 0, None).is_credits());
    assert_eq!(alert("plain", "Alert", 0, None).reward_icon(), "");
    assert!(alert("Orokin Reactor", "Alert", 0, None).is_important());
    assert!(alert("x", "Alert", 0, Some(5400)).is_important());
    assert!(!alert("x", "Alert", 0, Some(5399)).is_important());
    assert!(!alert("x", "Alert", 0, None).is_important());
}

#[test]
fn guardian_names() {
    let g = guardian(1, "berkus", "dozniak");
    assert_eq!(g.format_name(), "dozniak (t.me/berkus)");
    assert_eq!(g.to_string(), "dozniak (t.me/berkus)");
    assert_eq!(g.names(), ("berkus".to_string(), "dozniak".to_string()));
}

#[test]
fn planned_activity_texts() {
    let p = PlannedActivity { id: 3, author_id: 1, activity_id: 9, details: Some("bring snacks".to_string()), start: 0 };
    assert_eq!(p.join_link(), "/join3");
    assert_eq!(p.cancel_link(), "/cancel3");
    assert_eq!(p.format_details(), "bring snacks\n");
    assert!(!p.is_full(2, &activity(6)));
    assert!(p.is_full(6, &activity(6)));
    assert!(p.requires_more_members(1, &activity(6)));
    assert!(!p.requires_more_members(2, &activity(6)));
    assert_eq!(p.join_prompt(6, &activity(6)), "This activity fireteam is full.");
    assert_eq!(
        p.join_prompt(3, &activity(6)),
        "Enter `/join3` to join this group. Up to 3 more can join."
    );
    let gs = vec![guardian(1, "a", "pa"), guardian(2, "b", "pb")];
    assert_eq!(p.members_formatted_list(&gs), "pa (t.me/a), pb (t.me/b)");
    assert_eq!(p.members_formatted_column(&gs), "pa (t.me/a)\npb (t.me/b)");
    assert_eq!(p.members_formatted(&vec![], ", "), "");
}

#[test]
fn members_and_templates() {
    let m = PlannedActivityMember { id: 1, planned_activity_id: 3, user_id: 14, added: 0 };
    let g = guardian(14, "t", "p");
    assert_eq!(m.icon(), "🕵🏼");
    assert_eq!(m.format_name(&g), "p (t.me/t)");
    let t = m.to_template(&g);
    assert_eq!((t.psn_name.as_str(), t.telegram_name.as_str(), t.icon.as_str()), ("p", "t", "🕵🏼"));
    let p = PlannedActivity { id: 3, author_id: 1, activity_id: 9, details: None, start: 0 };
    let members = vec![ActivityMemberTemplate { psn_name: "p".into(), telegram_name: "t".into(), icon: "x".into() }];
    let tpl = p.to_template(&activity(4), members, "today".to_string(), true);
    assert_eq!(tpl.count, 3);
    assert!(!tpl.fireteam_full);
    assert!(tpl.fireteam_joined);
    assert_eq!(tpl.name, "Vault of Glass hard");
    assert_eq!(tpl.details, "");
    assert_eq!(tpl.join_link, "Enter `/join3` to join this group. Up to 3 more can join.");
    assert_eq!(tpl.leave_link, "/cancel3");
}
