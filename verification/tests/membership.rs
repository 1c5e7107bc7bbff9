use aegl_bot::commands::activity_id_argument;
use aegl_bot::matching::match_command;
use aegl_bot::membership::{
    activity_not_found_reply, bad_time_reply, cancel_step, is_past_activity, join_step,
    joined_activity_name, lfg_arguments, still_going, unknown_shortcut_reply, CancelFacts,
    CancelRefusal, CancelStep, JoinFacts, JoinRefusal, JoinStep,
};
use aegl_bot::models::PlannedActivity;

fn planned(id: i32, start: i64) -> PlannedActivity {
    PlannedActivity { id, author_id: 1, activity_id: 9, details: None, start }
}

#[test]
fn join_link_from_the_listing_joins_that_activity() {
    let p = planned(3, 0);
    let link = p.join_link();
    assert_eq!(link, "/join3");
    let (cmd, args) = match_command(Some(&link), "/join", "AeglBot");
    assert_eq!(cmd, Some("/join".to_string()));
    assert_eq!(activity_id_argument(&args), Some(3));
    let (cmd, args) = match_command(Some("/cancel593@AeglBot"), "/cancel", "AeglBot");
    assert_eq!(cmd, Some("/cancel".to_string()));
    assert_eq!(activity_id_argument(&args), Some(593));
    assert_eq!(activity_id_argument(&Some("abc".to_string())), None);
    assert_eq!(activity_id_argument(&None), None);
}

#[test]
fn past_means_more_than_an_hour_ago() {
    assert!(!is_past_activity(1000, 1000 + 3600));
    assert!(is_past_activity(1000, 1000 + 3601));
    assert!(!is_past_activity(5000, 0));
}

fn join_facts() -> JoinFacts {
    JoinFacts {
        activity_id: 3,
        guardian_id: 7,
        now: 10_000,
        planned: None,
        already_member: None,
        fireteam: None,
        saved: None,
    }
}

#[test]
fn joining_step_by_step() {
    let mut f = join_facts();
    assert!(join_step(&f) == JoinStep::LookUpActivity(3));
    f.planned = Some(None);
    assert!(join_step(&f) == JoinStep::Refuse(JoinRefusal::NotFound(3)));
    f.planned = Some(Some(planned(3, 20_000)));
    assert!(join_step(&f) == JoinStep::LookUpMembership { planned_activity_id: 3, user_id: 7 });
    f.already_member = Some(true);
    assert!(join_step(&f) == JoinStep::Refuse(JoinRefusal::AlreadyMember));
    f.already_member = Some(false);
    assert!(join_step(&f) == JoinStep::CountFireteam(3));
    f.fireteam = Some((6, 6));
    assert!(join_step(&f) == JoinStep::Refuse(JoinRefusal::Full));
    f.fireteam = Some((2, 6));
    assert!(join_step(&f) == JoinStep::AddMember { planned_activity_id: 3, user_id: 7, added: 10_000 });
    f.saved = Some(false);
    assert!(join_step(&f) == JoinStep::Refuse(JoinRefusal::SaveFailed));
    f.saved = Some(true);
    assert!(join_step(&f) == JoinStep::Joined { planned_activity_id: 3, activity_id: 9 });
    f.saved = None;
    f.planned = Some(Some(planned(3, 10_000 - 3601)));
    assert!(join_step(&f) == JoinStep::Refuse(JoinRefusal::Past));
}

#[test]
fn join_replies() {
    assert_eq!(JoinRefusal::NotFound(12).text(), "❌ Activity 12 was not found.");
    assert_eq!(JoinRefusal::AlreadyMember.text(), "✅ You are already part of this group.");
    assert_eq!(JoinRefusal::Full.text(), "❌ This activity group is full.");
    assert_eq!(JoinRefusal::Past.text(), "❌ You can not join past activities.");
    assert_eq!(JoinRefusal::SaveFailed.text(), "🐛 Unexpected error saving group joiner");
    assert_eq!(joined_activity_name(9), "Activity 9");
    assert_eq!(activity_not_found_reply(-4), "❌ Activity -4 was not found.");
}

fn cancel_facts() -> CancelFacts {
    CancelFacts {
        activity_id: 5,
        guardian_id: 7,
        now: 10_000,
        planned: None,
        membership: None,
        removed: None,
        remaining: None,
        disbanded: None,
    }
}

#[test]
fn leaving_step_by_step() {
    let mut f = cancel_facts();
    assert!(cancel_step(&f) == CancelStep::LookUpActivity(5));
    f.planned = Some(None);
    assert!(cancel_step(&f) == CancelStep::Refuse(CancelRefusal::NotFound(5)));
    f.planned = Some(Some(planned(5, 20_000)));
    assert!(cancel_step(&f) == CancelStep::LookUpMembership { planned_activity_id: 5, user_id: 7 });
    f.membership = Some(None);
    assert!(cancel_step(&f) == CancelStep::Refuse(CancelRefusal::NotMember));
    f.membership = Some(Some(44));
    assert!(cancel_step(&f) == CancelStep::RemoveMember(44));
    f.removed = Some(false);
    assert!(cancel_step(&f) == CancelStep::Refuse(CancelRefusal::RemoveMemberFailed));
    f.removed = Some(true);
    assert!(cancel_step(&f) == CancelStep::CountRemaining(5));
    f.remaining = Some(2);
    assert!(cancel_step(&f) == CancelStep::Left { planned_activity_id: 5, disbanded: false });
    // The last member leaving disbands the group.
    f.remaining = Some(0);
    assert!(cancel_step(&f) == CancelStep::RemoveActivity(5));
    f.disbanded = Some(false);
    assert!(cancel_step(&f) == CancelStep::Refuse(CancelRefusal::RemoveActivityFailed));
    f.disbanded = Some(true);
    assert!(cancel_step(&f) == CancelStep::Left { planned_activity_id: 5, disbanded: true });
    f.planned = Some(Some(planned(5, 0)));
    assert!(cancel_step(&f) == CancelStep::Refuse(CancelRefusal::Past));
}

#[test]
fn leave_replies() {
    assert_eq!(CancelRefusal::NotMember.text(), "❌ You are not a part of this group.");
    assert_eq!(CancelRefusal::Past.text(), "❌ You can not leave activities from the past.");
    assert_eq!(CancelRefusal::RemoveMemberFailed.text(), "❌ Failed to remove group member");
    assert_eq!(CancelRefusal::RemoveActivityFailed.text(), "❌ Failed to remove planned activity");
    assert_eq!(
        still_going("a (t.me/b)", "Enter `/join5` to join this group. Up to 4 more can join."),
        "a (t.me/b) are going\nEnter `/join5` to join this group. Up to 4 more can join."
    );
}

#[test]
fn lfg_arguments_and_replies() {
    assert_eq!(
        lfg_arguments(&Some("wotmn friday 21:30".to_string())),
        Some(("wotmn".to_string(), "friday 21:30".to_string()))
    );
    assert_eq!(lfg_arguments(&Some("wotmn".to_string())), None);
    assert_eq!(lfg_arguments(&None), None);
    assert_eq!(
        unknown_shortcut_reply("xyz"),
        "❌ Activity xyz was not found. Use /activities to see the list."
    );
    assert_eq!(bad_time_reply("someday"), "❌ Failed to parse time someday");
}
