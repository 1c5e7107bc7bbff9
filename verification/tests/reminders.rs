use aegl_bot::models::PlannedActivity;
use aegl_bot::reminders::{
    daily_reset_message, delay_until, is_reminder_due, next_minute, check,
    weekly_reset_message,
};

fn planned(id: i32, start: i64) -> PlannedActivity {
    PlannedActivity { id, author_id: 1, activity_id: 1, details: None, start }
}

#[test]
fn reminder_windows() {
    let start: i64 = 1_000_000;
    let ms = |seconds_before: i64| (start - seconds_before) * 1000;
    assert!(is_reminder_due(start, ms(3600)));
    assert!(is_reminder_due(start, ms(3659)));
    assert!(!is_reminder_due(start, ms(3660)));
    assert!(!is_reminder_due(start, ms(3599)));
    assert!(is_reminder_due(start, ms(900)));
    assert!(is_reminder_due(start, ms(959)));
    assert!(is_reminder_due(start, ms(1)));
    assert!(is_reminder_due(start, ms(59)));
    assert!(!is_reminder_due(start, ms(60)));
    assert!(!is_reminder_due(start, ms(0)));
    assert!(!is_reminder_due(start, ms(-10)));
}

#[test]
fn reminder_counts_milliseconds() {
    let start: i64 = 1_000_000;
    // A few milliseconds past the hour mark: 59 whole minutes are left.
    assert!(!is_reminder_due(start, (start - 3600) * 1000 + 5));
    // A few milliseconds before it: still 60 whole minutes.
    assert!(is_reminder_due(start, (start - 3600) * 1000 - 5));
    // One millisecond before the start: due; at the start: not.
    assert!(is_reminder_due(start, start * 1000 - 1));
    assert!(!is_reminder_due(start, start * 1000));
}

#[test]
fn announcement_of_soon_starting_activities() {
    let now: i64 = 1_000_000;
    let now_ms = now * 1000;
    let events = vec![planned(1, now + 3600), planned(2, now + 120), planned(3, now + 30)];
    assert_eq!(
        check(&events, now_ms),
        Some("Activities starting soon:\n\nActivity 1 starting soon\n\nActivity 3 starting soon\n\n".to_string())
    );
    assert_eq!(check(&vec![planned(2, now + 120)], now_ms), None);
    assert_eq!(check(&vec![], now_ms), None);
}

#[test]
fn scheduling() {
    assert_eq!(next_minute(120), 180);
    assert_eq!(next_minute(125), 180);
    assert_eq!(next_minute(179), 180);
    assert_eq!(next_minute(-30), 0);
    assert_eq!(next_minute(-60), 0);
    assert_eq!(delay_until(100, 40), 60);
    assert_eq!(delay_until(40, 100), 0);
    assert_eq!(delay_until(i64::MAX, i64::MIN), u64::MAX);
}

#[test]
fn reset_announcements() {
    assert_eq!(daily_reset_message(), "⚡️ Daily reset");
    assert_eq!(weekly_reset_message("D1", "D2"), "⚡️ Weekly reset:\n\nD1\n\nD2");
}
