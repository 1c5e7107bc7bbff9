use aegl_bot::models::PlannedActivity;
use aegl_bot::planning::{
    edit_request, edit_step, edit_usage, edited_activity,
    is_plain_time_text, lfg_step, read_start_time, EditAttribute, EditFacts, EditReply, EditStep,
    LfgFacts, LfgStep,
};
use chrono::{TimeZone, Utc};

#[test]
fn plain_time_texts() {
    assert!(is_plain_time_text("friday 21:30"));
    assert!(is_plain_time_text("2025-09-10 21:00"));
    assert!(is_plain_time_text(""));
    assert!(!is_plain_time_text("завтра"));
    assert!(!is_plain_time_text("in 12345 days"));
    assert!(is_plain_time_text("in 1234 days"));
    assert!(!is_plain_time_text("10:30:00.x"));
    assert!(!is_plain_time_text("10:30. 5"));
    assert!(is_plain_time_text("10:30:00.5"));
    assert!(is_plain_time_text("21.30"));
    assert!(is_plain_time_text("today."));
}

#[test]
fn start_time_is_read_in_moscow_time() {
    let now = Utc.with_ymd_and_hms(2025, 9, 1, 12, 0, 0).unwrap().timestamp();
    // 21:00 in Moscow (UTC+3) is 18:00 UTC.
    let expected = Utc.with_ymd_and_hms(2025, 9, 10, 18, 0, 0).unwrap().timestamp();
    assert_eq!(read_start_time("2025-09-10 21:00", now), Some(expected));
    assert_eq!(read_start_time("nonsense words", now), None);
}

fn lfg_facts() -> LfgFacts {
    LfgFacts {
        guardian_id: 7,
        now: 1000,
        shortcut_link: None,
        start: None,
        planned_id: None,
        member_added: false,
    }
}

#[test]
fn creating_a_group_step_by_step() {
    let mut f = lfg_facts();
    assert!(lfg_step(&f) == LfgStep::LookUpShortcut);
    f.shortcut_link = Some(None);
    assert!(lfg_step(&f) == LfgStep::UnknownShortcut);
    f.shortcut_link = Some(Some(4));
    assert!(lfg_step(&f) == LfgStep::ReadStartTime);
    f.start = Some(None);
    assert!(lfg_step(&f) == LfgStep::BadTime);
    f.start = Some(Some(50_000));
    assert!(lfg_step(&f) == LfgStep::StorePlanned { author_id: 7, activity_id: 4, start: 50_000 });
    f.planned_id = Some(31);
    assert!(lfg_step(&f) == LfgStep::StoreMember { planned_activity_id: 31, user_id: 7, added: 1000 });
    f.member_added = true;
    assert!(lfg_step(&f) == LfgStep::Created { planned_activity_id: 31, activity_id: 4 });
}

#[test]
fn edit_arguments() {
    assert_eq!(
        edit_request(&Some("12 details bring snacks please".to_string())),
        Some(("12".to_string(), "details".to_string(), "bring snacks please".to_string()))
    );
    assert_eq!(edit_request(&Some("12 details".to_string())), None);
    assert_eq!(edit_request(&None), None);
}

fn edit_facts(attribute: &str, value: &str) -> EditFacts {
    EditFacts {
        id_text: "12".to_string(),
        attribute: attribute.to_string(),
        value: value.to_string(),
        now: 10_000,
        planned: None,
        new_start: None,
        shortcut_link: None,
        saved: None,
    }
}

fn planned(start: i64) -> PlannedActivity {
    PlannedActivity {
        id: 12,
        author_id: 1,
        activity_id: 9,
        details: Some("old".to_string()),
        start,
    }
}

#[test]
fn editing_step_by_step() {
    let mut f = edit_facts("time", "friday 21:00");
    f.id_text = "x".to_string();
    assert!(edit_step(&f) == EditStep::Reply(EditReply::NotANumber));
    f.id_text = "12".to_string();
    assert!(edit_step(&f) == EditStep::LookUpActivity(12));
    f.planned = Some(None);
    assert!(edit_step(&f) == EditStep::Reply(EditReply::NotFound(12)));
    f.planned = Some(Some(planned(0)));
    assert!(edit_step(&f) == EditStep::Reply(EditReply::Past));
    f.planned = Some(Some(planned(20_000)));
    assert!(edit_step(&f) == EditStep::ReadStartTime);
    f.new_start = Some(None);
    assert!(edit_step(&f) == EditStep::Reply(EditReply::BadTime));
    f.new_start = Some(Some(30_000));
    assert!(edit_step(&f) == EditStep::Save(EditAttribute::Time));
    f.saved = Some(true);
    assert!(edit_step(&f) == EditStep::Reply(EditReply::Saved(EditAttribute::Time)));

    let mut g = edit_facts("activity", "wotmn");
    g.planned = Some(Some(planned(20_000)));
    assert!(edit_step(&g) == EditStep::LookUpShortcut);
    g.shortcut_link = Some(None);
    assert!(edit_step(&g) == EditStep::Reply(EditReply::UnknownShortcut));
    g.shortcut_link = Some(Some(4));
    assert!(edit_step(&g) == EditStep::Save(EditAttribute::Activity));
    g.saved = Some(false);
    assert!(edit_step(&g) == EditStep::Reply(EditReply::SaveFailed(EditAttribute::Activity)));

    let mut h = edit_facts("colour", "red");
    h.planned = Some(Some(planned(20_000)));
    assert!(edit_step(&h) == EditStep::Reply(EditReply::UnknownAttribute));
}

#[test]
fn edited_records() {
    let p = planned(20_000);
    let mut f = edit_facts("details", "delete");
    let r = edited_activity(&p, EditAttribute::Details, &f);
    assert_eq!(r.details, None);
    assert_eq!((r.id, r.start, r.activity_id), (12, 20_000, 9));
    f.value = "bring snacks".to_string();
    let r = edited_activity(&p, EditAttribute::Details, &f);
    assert_eq!(r.details, Some("bring snacks".to_string()));
    f.new_start = Some(Some(77));
    let r = edited_activity(&p, EditAttribute::Time, &f);
    assert_eq!((r.start, r.details.clone()), (77, Some("old".to_string())));
    f.shortcut_link = Some(Some(4));
    let r = edited_activity(&p, EditAttribute::Activity, &f);
    assert_eq!((r.activity_id, r.start), (4, 20_000));
}

#[test]
fn edit_replies() {
    assert_eq!(EditReply::NotANumber.text("time", "x"), "ActivityID must be a number");
    assert_eq!(EditReply::NotFound(12).text("time", "x"), "Activity 12 was not found.");
    assert_eq!(EditReply::Past.text("time", "x"), "You can not edit past activities.");
    assert_eq!(EditReply::BadTime.text("time", "someday"), "Failed to parse time someday");
    assert_eq!(EditReply::UnknownAttribute.text("colour", "red"), "Unknown attribute colour");
    assert_eq!(EditReply::Saved(EditAttribute::Time).text("time", "x"), "Start time updated.");
    assert_eq!(EditReply::Saved(EditAttribute::Details).text("d", "x"), "Details updated.");
    assert_eq!(EditReply::Saved(EditAttribute::Activity).text("a", "x"), "Activity updated.");
    assert_eq!(
        EditReply::SaveFailed(EditAttribute::Time).text("time", "x"),
        "Failed to update start time."
    );
    assert_eq!(
        EditReply::UnknownShortcut.text("activity", "zz"),
        "Activity zz was not found. Use /activities for a list."
    );
    assert!(edit_usage().starts_with("Usage:\n\nActivityIDs are available"));
}
