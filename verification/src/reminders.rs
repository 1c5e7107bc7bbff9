//! When planned activities are announced before they start, and when the
//! periodic jobs run next. Start times are Unix timestamps in whole seconds;
//! the clock that the announcement check reads is in milliseconds.

use vstd::prelude::*;
use crate::models::PlannedActivity;
use crate::numbers::{decimal, i64_decimal};
use crate::schedule::trunc_div;
use crate::text::{chars_to_string, concat3, extend_chars, push_str};

verus! {

/// Milliseconds from `now_ms` until `start` (in seconds).
pub open spec fn millis_until(start: int, now_ms: int) -> int {
    start * 1000 - now_ms
}

/// Whole minutes from `now_ms` until `start`, rounded toward zero (what
/// `TimeDelta::num_minutes` gives for `start - now`).
pub open spec fn minutes_until(start: int, now_ms: int) -> int {
    trunc_div(millis_until(start, now_ms), 60000)
}

/// An activity is announced while it has not started and exactly an hour,
/// a quarter of an hour or less than a minute is left (in whole minutes).
pub open spec fn reminder_due(start: int, now_ms: int) -> bool {
    millis_until(start, now_ms) > 0 && (minutes_until(start, now_ms) == 60 || minutes_until(
        start,
        now_ms,
    ) == 15 || minutes_until(start, now_ms) == 0)
}

/// An activity is announced exactly while between an hour and an hour and a
/// minute, between a quarter of an hour and sixteen minutes, or less than a
/// minute is left before it starts.
pub proof fn lemma_reminder_windows(start: int, now_ms: int)
    ensures
        reminder_due(start, now_ms) <==> ({
            let d = millis_until(start, now_ms);
            ||| 3_600_000 <= d < 3_660_000
            ||| 900_000 <= d < 960_000
            ||| 0 < d < 60_000
        }),
{
    let d = millis_until(start, now_ms);
    if d > 0 {
        vstd::arithmetic::div_mod::lemma_fundamental_div_mod(d, 60000);
        vstd::arithmetic::div_mod::lemma_mod_bound(d, 60000);
        assert(minutes_until(start, now_ms) == d / 60000);
    }
}

/// Whether the activity starting at `start` (seconds) is announced when the
/// clock reads `now_ms` (milliseconds).
pub fn is_reminder_due(start: i64, now_ms: i64) -> (r: bool)
    ensures
        r == reminder_due(start as int, now_ms as int),
{
    let d: i128 = (start as i128) * 1000 - (now_ms as i128);
    if d <= 0 {
        return false;
    }
    let m: i128 = d / 60000;
    m == 60 || m == 15 || m == 0
}

/// The announced activities among `events`, in order.
pub open spec fn due_events(events: Seq<PlannedActivity>, now_ms: int) -> Seq<PlannedActivity> {
    events.filter(|e: PlannedActivity| reminder_due(e.start as int, now_ms))
}

/// The announcement of the given activities.
pub open spec fn reminder_lines(events: Seq<PlannedActivity>) -> Seq<char>
    decreases events.len(),
{
    if events.len() == 0 {
        "Activities starting soon:\n\n"@
    } else {
        reminder_lines(events.drop_last()) + "Activity "@ + decimal(events.last().id as int)
            + " starting soon\n\n"@
    }
}

/// The announcement of the activities among `events` that start soon after
/// the clock's reading `now_ms` (milliseconds), or `None` where none does.
pub fn check(events: &Vec<PlannedActivity>, now_ms: i64) -> (r: Option<String>)
    ensures
        match r {
            Some(s) => due_events(events@, now_ms as int).len() > 0 && s@ == reminder_lines(
                due_events(events@, now_ms as int),
            ),
            None => due_events(events@, now_ms as int).len() == 0,
        },
{
    let ghost pred = |e: PlannedActivity| reminder_due(e.start as int, now_ms as int);
    let mut text: Vec<char> = Vec::new();
    push_str(&mut text, "Activities starting soon:\n\n");
    let mut count: usize = 0;
    let mut i: usize = 0;
    proof {
        assert(events@.take(0).filter(pred) =~= Seq::<PlannedActivity>::empty());
    }
    while i < events.len()
        invariant
            i <= events.len(),
            count == events@.take(i as int).filter(pred).len(),
            count <= i,
            text@ == reminder_lines(events@.take(i as int).filter(pred)),
            pred == (|e: PlannedActivity| reminder_due(e.start as int, now_ms as int)),
        decreases events.len() - i,
    {
        let e = &events[i];
        let ghost f0 = events@.take(i as int).filter(pred);
        let ghost f1 = events@.take(i + 1).filter(pred);
        let ghost t0 = text@;
        proof {
            assert(events@.take(i + 1).drop_last() =~= events@.take(i as int));
            assert(events@.take(i + 1).last() == events@[i as int]);
            reveal(Seq::filter);
            if pred(events@[i as int]) {
                assert(f1 == f0.push(events@[i as int]));
                assert(f1.drop_last() =~= f0);
            } else {
                assert(f1 == f0);
            }
        }
        if is_reminder_due(e.start, now_ms) {
            push_str(&mut text, "Activity ");
            let d = i64_decimal(e.id as i64);
            extend_chars(&mut text, d.as_slice());
            push_str(&mut text, " starting soon\n\n");
            proof {
                assert(f1.last() == events@[i as int]);
                assert(text@ =~= t0 + "Activity "@ + decimal(events@[i as int].id as int)
                    + " starting soon\n\n"@);
            }
            count = count + 1;
        }
        i = i + 1;
    }
    proof {
        assert(events@.take(events.len() as int) =~= events@);
    }
    if count == 0 {
        None
    } else {
        Some(chars_to_string(text.as_slice()))
    }
}

/// The next whole minute after `now`: one minute later with the seconds set
/// to zero.
pub open spec fn next_minute_spec(now: int) -> int {
    (now + 60) - (now + 60) % 60
}

/// The next whole minute after `now`.
pub fn next_minute(now: i64) -> (r: i64)
    requires
        now <= i64::MAX - 60,
    ensures
        r == next_minute_spec(now as int),
        now < r <= now + 60,
        r % 60 == 0,
{
    let t: i64 = now + 60;
    let s: i64 = if t >= 0 {
        t % 60
    } else {
        let m = (-(t as i128)) % 60;
        if m == 0 {
            0
        } else {
            (60 - m) as i64
        }
    };
    proof {
        vstd::arithmetic::div_mod::lemma_fundamental_div_mod(t as int, 60);
        vstd::arithmetic::div_mod::lemma_fundamental_div_mod(-(t as int), 60);
        vstd::arithmetic::div_mod::lemma_mod_bound(t as int, 60);
        vstd::arithmetic::div_mod::lemma_mod_bound(-(t as int), 60);
        if t < 0 {
            let q = (-(t as int)) / 60;
            let m = (-(t as int)) % 60;
            if m == 0 {
                assert(t as int == 60 * (-q));
                vstd::arithmetic::div_mod::lemma_fundamental_div_mod_converse_mod(
                    t as int,
                    60,
                    -q,
                    0,
                );
            } else {
                assert(t as int == 60 * (-q - 1) + (60 - m));
                vstd::arithmetic::div_mod::lemma_fundamental_div_mod_converse_mod(
                    t as int,
                    60,
                    -q - 1,
                    60 - m,
                );
            }
        }
    }
    t - s
}

/// How long to wait, in whole seconds, until `target`: nothing where it has
/// passed.
pub fn delay_until(target: i64, now: i64) -> (r: u64)
    ensures
        r == (if target > now {
            target - now
        } else {
            0
        }),
{
    if target > now {
        ((target as i128) - (now as i128)) as u64
    } else {
        0
    }
}

/// The daily reset announcement.
pub fn daily_reset_message() -> (r: String)
    ensures
        r@ == "⚡️ Daily reset"@,
{
    "⚡️ Daily reset".to_owned()
}

/// The weekly reset announcement: this week in Destiny 1, then in Destiny 2.
pub open spec fn weekly_reset_text(d1: Seq<char>, d2: Seq<char>) -> Seq<char> {
    "⚡️ Weekly reset:\n\n"@ + d1 + "\n\n"@ + d2
}

/// The weekly reset announcement.
pub fn weekly_reset_message(d1: &str, d2: &str) -> (r: String)
    ensures
        r@ == weekly_reset_text(d1@, d2@),
{
    let head = concat3("⚡️ Weekly reset:\n\n", d1, "\n\n");
    let mut v: Vec<char> = Vec::new();
    push_str(&mut v, head.as_str());
    push_str(&mut v, d2);
    chars_to_string(v.as_slice())
}

} // verus!
