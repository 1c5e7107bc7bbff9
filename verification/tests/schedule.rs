use aegl_bot::schedule::{
    ascendant_challenge_cycle_at, ascendant_challenge_week_number, d2_week_summary,
    dc_week_number, dreaming_city_cycle_at, raid_cycle_at, raid_week_number, this_week_in_d1_at,
    this_week_in_d2, this_week_in_d1_as_of, this_week_in_d2_as_of, raid_cycle_as_of,
    dreaming_city_cycle_as_of, ascendant_challenge_cycle_as_of, DREAMING_CITY_CYCLE_START,
    RAID_CYCLE_START, WEEK_SECONDS,
};
use chrono::{TimeZone, Utc};

fn at(y: i32, mo: u32, d: u32, h: u32, mi: u32, s: u32) -> i64 {
    Utc.with_ymd_and_hms(y, mo, d, h, mi, s).unwrap().timestamp()
}

#[test]
fn test_dc_weeks() {
    // Week Oct 16-22 - Strongest Curse (2)
    assert_eq!(dc_week_number(at(2018, 10, 20, 12, 0, 0)), 2);
    // Week Oct 23-29 - Weak Curse (0)
    assert_eq!(dc_week_number(at(2018, 10, 24, 12, 0, 0)), 0);
    // Week Oct 30-Nov 5 - Growing Curse (1)
    assert_eq!(dc_week_number(at(2018, 11, 1, 12, 0, 0)), 1);
}

#[test]
fn test_raid_weeks() {
    assert_eq!(raid_week_number(at(2020, 1, 28, 21, 0, 0)), 0);
    assert_eq!(raid_week_number(at(2020, 1, 27, 12, 0, 0)), 3);
}

#[test]
fn rotation_starts_match_their_dates() {
    assert_eq!(RAID_CYCLE_START, at(2019, 12, 31, 17, 0, 0));
    assert_eq!(DREAMING_CITY_CYCLE_START, at(2018, 9, 11, 17, 0, 0));
    assert_eq!(WEEK_SECONDS, 7 * 24 * 3600);
}

#[test]
fn rotation_moves_on_weekly_and_wraps() {
    let t = at(2020, 1, 1, 0, 0, 0);
    let mut expected = raid_week_number(t);
    for k in 0..9 {
        assert_eq!(raid_week_number(t + k * WEEK_SECONDS), expected);
        expected = (expected + 1) % 4;
    }
    // One week before the start the position is still 0 (weeks round toward zero).
    assert_eq!(raid_week_number(RAID_CYCLE_START - 1), 0);
    assert_eq!(raid_week_number(RAID_CYCLE_START + WEEK_SECONDS - 1), 0);
    // Further back it goes negative, as `%` on a negative week count does.
    assert_eq!(raid_week_number(RAID_CYCLE_START - 2 * WEEK_SECONDS), -2);
    assert_eq!(ascendant_challenge_week_number(at(2021, 7, 6, 17, 0, 0)), 0);
    assert_eq!(ascendant_challenge_week_number(at(2021, 7, 13, 17, 0, 0)), 1);
}

#[test]
fn raid_announcement_names_this_and_next_raid() {
    assert_eq!(
        raid_cycle_at(at(2020, 1, 28, 21, 0, 0)),
        "Weekly Featured Raid: *Crota's End*, activity id: *crw*\nNext Week Raid: *Vault of Glass*, activity id: *vogw*"
    );
    assert_eq!(
        raid_cycle_at(at(2020, 1, 27, 12, 0, 0)),
        "Weekly Featured Raid: *Wrath of the Machine*, activity id: *wotmw*\nNext Week Raid: *Crota's End*, activity id: *crw*"
    );
    assert_eq!(
        this_week_in_d1_at(at(2020, 1, 28, 21, 0, 0)),
        "This week in Destiny 1:\n\nWeekly Featured Raid: *Crota's End*, activity id: *crw*\nNext Week Raid: *Vault of Glass*, activity id: *vogw*"
    );
}

#[test]
fn dreaming_city_and_challenge_texts() {
    assert_eq!(
        dreaming_city_cycle_at(at(2018, 10, 20, 12, 0, 0)),
        "💫 Dreaming City: Strongest Curse \\- [Ascendant Chests](https://www.youtube.com/watch?v=Bwgwa6HpXTI)\n\\(Shattered Throne is always available\\)"
    );
    assert_eq!(
        ascendant_challenge_cycle_at(at(2021, 7, 14, 0, 0, 0)),
        "[Ascendant Challenge](https://www.shacknews.com/article/109219/ascendant-challenge-schedule-and-location-destiny-2): [Cimmerian Garrison](https://www.youtube.com/watch?v=sAZrihxy_30) in the Chamber of Starlight"
    );
    assert_eq!(d2_week_summary("A", "B"), "This week in Destiny 2:\n\nA\nB");
}

#[test]
fn current_week_summary_is_available_now() {
    let s = this_week_in_d2().unwrap();
    assert!(s.starts_with("This week in Destiny 2:\n\n💫 Dreaming City: "));
}

#[test]
fn announcements_as_of_a_time() {
    let t = at(2020, 1, 28, 21, 0, 0);
    assert_eq!(raid_cycle_as_of(t), Some(raid_cycle_at(t)));
    assert_eq!(this_week_in_d1_as_of(t), Some(this_week_in_d1_at(t)));
    assert_eq!(raid_cycle_as_of(RAID_CYCLE_START - WEEK_SECONDS), None);
    assert_eq!(this_week_in_d1_as_of(0), None);
    assert_eq!(dreaming_city_cycle_as_of(DREAMING_CITY_CYCLE_START - WEEK_SECONDS), None);
    let d = at(2022, 3, 1, 0, 0, 0);
    assert_eq!(
        this_week_in_d2_as_of(d, d),
        Some(d2_week_summary(
            &dreaming_city_cycle_as_of(d).unwrap(),
            &ascendant_challenge_cycle_as_of(d).unwrap()
        ))
    );
    assert_eq!(ascendant_challenge_cycle_as_of(at(2021, 6, 1, 0, 0, 0)), None);
    assert_eq!(this_week_in_d2_as_of(d, at(2021, 6, 1, 0, 0, 0)), None);
}
