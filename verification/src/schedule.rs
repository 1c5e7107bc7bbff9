//! Weekly rotations of Destiny activities: which raid, Dreaming City curse
//! and Ascendant Challenge a given week has. Times are Unix timestamps in
//! whole seconds (UTC).

use vstd::prelude::*;
use crate::text::{chars_to_string, push_str};

verus! {

/// Seconds in a week.
pub const WEEK_SECONDS: i64 = 604800;

/// The raid rotation's first week starts 2019-12-31 17:00 UTC.
pub const RAID_CYCLE_START: i64 = 1577811600;

/// The Dreaming City curse rotation's first week starts 2018-09-11 17:00 UTC.
pub const DREAMING_CITY_CYCLE_START: i64 = 1536685200;

/// The Ascendant Challenge rotation's first week starts 2021-07-06 17:00 UTC.
pub const ASCENDANT_CHALLENGE_CYCLE_START: i64 = 1625590800;

/// Integer division rounding toward zero (Rust's `/`).
pub open spec fn trunc_div(a: int, b: int) -> int {
    if a >= 0 {
        a / b
    } else {
        -((-a) / b)
    }
}

/// The remainder that goes with `trunc_div` (Rust's `%`).
pub open spec fn trunc_rem(a: int, b: int) -> int {
    a - b * trunc_div(a, b)
}

/// Whole weeks from `from` to `to`, rounded toward zero (what
/// `TimeDelta::num_weeks` gives for `to - from`).
pub open spec fn whole_weeks(from: int, to: int) -> int {
    trunc_div(to - from, WEEK_SECONDS as int)
}

/// The position in a rotation of `period` weeks that began at `start`, for
/// the week containing `now`; negative more than a week before `start`.
pub open spec fn week_in_cycle(now: int, start: int, period: int) -> int {
    trunc_rem(whole_weeks(start, now), period)
}

/// Position in a rotation, computed as
/// `(now - start).num_weeks() % period`.
fn cycle_position(now: i64, start: i64, period: i64) -> (r: i64)
    requires
        0 < period <= 100,
    ensures
        r == week_in_cycle(now as int, start as int, period as int),
        -period < r < period,
{
    let d: i128 = (now as i128) - (start as i128);
    let w: i128 = WEEK_SECONDS as i128;
    let weeks: i128 = if d >= 0 {
        d / w
    } else {
        -((-d) / w)
    };
    let p: i128 = period as i128;
    let r: i128 = if weeks >= 0 {
        weeks % p
    } else {
        -((-weeks) % p)
    };
    assert(weeks == trunc_div(d as int, w as int));
    proof {
        lemma_trunc_rem(weeks as int, p as int);
    }
    r as i64
}

/// The raid rotation position of the week containing `now`.
pub fn raid_week_number(now: i64) -> (r: i64)
    ensures
        r == week_in_cycle(now as int, RAID_CYCLE_START as int, 4),
{
    cycle_position(now, RAID_CYCLE_START, 4)
}

/// The Dreaming City curse rotation position of the week containing `now`.
pub fn dc_week_number(now: i64) -> (r: i64)
    ensures
        r == week_in_cycle(now as int, DREAMING_CITY_CYCLE_START as int, 3),
{
    cycle_position(now, DREAMING_CITY_CYCLE_START, 3)
}

/// The Ascendant Challenge rotation position of the week containing `now`.
pub fn ascendant_challenge_week_number(now: i64) -> (r: i64)
    ensures
        r == week_in_cycle(now as int, ASCENDANT_CHALLENGE_CYCLE_START as int, 6),
{
    cycle_position(now, ASCENDANT_CHALLENGE_CYCLE_START, 6)
}

/// How the remainder is computed, and its range.
proof fn lemma_trunc_rem(a: int, b: int)
    requires
        b > 0,
    ensures
        trunc_rem(a, b) == (if a >= 0 {
            a % b
        } else {
            -((-a) % b)
        }),
        a >= 0 ==> 0 <= trunc_rem(a, b) < b,
        -b < trunc_rem(a, b) < b,
{
    vstd::arithmetic::div_mod::lemma_fundamental_div_mod(a, b);
    vstd::arithmetic::div_mod::lemma_fundamental_div_mod(-a, b);
    vstd::arithmetic::div_mod::lemma_mod_bound(a, b);
    vstd::arithmetic::div_mod::lemma_mod_bound(-a, b);
    if a >= 0 {
        assert(trunc_rem(a, b) == a - b * (a / b));
    } else {
        let q = (-a) / b;
        assert(trunc_div(a, b) == -q);
        assert(b * (-q) == -(b * q)) by (nonlinear_arith);
        assert(trunc_rem(a, b) == a + b * q);
    }
}

/// A rotation position is valid (not negative) from one week before the
/// rotation's start on.
pub proof fn lemma_cycle_position_valid(now: int, start: int, period: int)
    requires
        0 < period,
        now > start - WEEK_SECONDS,
    ensures
        0 <= week_in_cycle(now, start, period) < period,
        whole_weeks(start, now) >= 0,
{
    lemma_trunc_rem(whole_weeks(start, now), period);
}

/// From a rotation's start on, each week moves the rotation on by one
/// position, wrapping around after the last.
pub proof fn lemma_cycle_advances_weekly(now: int, start: int, period: int)
    requires
        0 < period,
        now >= start,
    ensures
        week_in_cycle(now + WEEK_SECONDS, start, period) == (week_in_cycle(now, start, period)
            + 1) % period,
{
    let w = WEEK_SECONDS as int;
    let d = now - start;
    let q = whole_weeks(start, now);
    assert(q == d / w);
    vstd::arithmetic::div_mod::lemma_div_plus_one(d, w);
    assert(w + d == d + w);
    assert(whole_weeks(start, now + w) == q + 1);
    vstd::arithmetic::div_mod::lemma_div_pos_is_pos(d, w);
    lemma_trunc_rem(q, period);
    lemma_trunc_rem(q + 1, period);
    vstd::arithmetic::div_mod::lemma_add_mod_noop(q, 1, period);
    if period == 1 {
        vstd::arithmetic::div_mod::lemma_mod_self_0(1);
        vstd::arithmetic::div_mod::lemma_mod_bound(q + 1, 1);
        vstd::arithmetic::div_mod::lemma_mod_bound(q % 1 + 1, 1);
    } else {
        vstd::arithmetic::div_mod::lemma_small_mod(1, period as nat);
    }
}

/// From a rotation's start on, it repeats after as many weeks as it has
/// positions.
pub proof fn lemma_cycle_repeats(now: int, start: int, period: int)
    requires
        0 < period,
        now >= start,
    ensures
        week_in_cycle(now + period * WEEK_SECONDS, start, period) == week_in_cycle(now, start, period),
{
    let w = WEEK_SECONDS as int;
    let d = now - start;
    let q = whole_weeks(start, now);
    assert(q == d / w);
    vstd::arithmetic::div_mod::lemma_fundamental_div_mod(d, w);
    vstd::arithmetic::div_mod::lemma_mod_bound(d, w);
    let r = d % w;
    assert(d + period * w == w * (period + q) + r) by (nonlinear_arith)
        requires
            d == w * q + r,
    ;
    vstd::arithmetic::div_mod::lemma_div_multiples_vanish_fancy(period + q, r, w);
    assert(period * w >= 0) by (nonlinear_arith)
        requires
            period > 0,
            w > 0,
    ;
    assert(whole_weeks(start, now + period * w) == q + period);
    vstd::arithmetic::div_mod::lemma_div_pos_is_pos(d, w);
    lemma_trunc_rem(q, period);
    lemma_trunc_rem(q + period, period);
    assert(q + period == period * 1 + q) by (nonlinear_arith);
    vstd::arithmetic::div_mod::lemma_mod_multiples_vanish(1, q, period);
}

// ---------------------------------------------------------------------------
// Texts
// ---------------------------------------------------------------------------

/// The raids of the rotation, in order.
pub open spec fn raid_name(i: int) -> Seq<char> {
    if i == 0 {
        "*Crota's End*, activity id: *crw*"@
    } else if i == 1 {
        "*Vault of Glass*, activity id: *vogw*"@
    } else if i == 2 {
        "*King's Fall*, activity id: *kfw*"@
    } else {
        "*Wrath of the Machine*, activity id: *wotmw*"@
    }
}

fn raid_name_exec(i: i64) -> (r: &'static str)
    requires
        0 <= i < 4,
    ensures
        r@ == raid_name(i as int),
{
    if i == 0 {
        "*Crota's End*, activity id: *crw*"
    } else if i == 1 {
        "*Vault of Glass*, activity id: *vogw*"
    } else if i == 2 {
        "*King's Fall*, activity id: *kfw*"
    } else {
        "*Wrath of the Machine*, activity id: *wotmw*"
    }
}

/// The Dreaming City curses of the rotation, in order.
pub open spec fn curse_name(i: int) -> Seq<char> {
    if i == 0 {
        "Weak Curse"@
    } else if i == 1 {
        "Growing Curse"@
    } else {
        "Strongest Curse"@
    }
}

/// The Ascendant Chests video for each curse week.
pub open spec fn curse_url(i: int) -> Seq<char> {
    if i == 0 {
        "https://www.youtube.com/watch?v=6tJZXAa57fY"@
    } else if i == 1 {
        "https://www.youtube.com/watch?v=7WvxeOnhClY"@
    } else {
        "https://www.youtube.com/watch?v=Bwgwa6HpXTI"@
    }
}

fn curse_exec(i: i64) -> (r: (&'static str, &'static str))
    requires
        0 <= i < 3,
    ensures
        r.0@ == curse_name(i as int),
        r.1@ == curse_url(i as int),
{
    if i == 0 {
        ("Weak Curse", "https://www.youtube.com/watch?v=6tJZXAa57fY")
    } else if i == 1 {
        ("Growing Curse", "https://www.youtube.com/watch?v=7WvxeOnhClY")
    } else {
        ("Strongest Curse", "https://www.youtube.com/watch?v=Bwgwa6HpXTI")
    }
}

/// The Ascendant Challenges of the rotation, in order.
pub open spec fn challenge_name(i: int) -> Seq<char> {
    if i == 0 {
        "Agonarch Abyss"@
    } else if i == 1 {
        "Cimmerian Garrison"@
    } else if i == 2 {
        "Ouroborea"@
    } else if i == 3 {
        "Forfeit Shrine"@
    } else if i == 4 {
        "Shattered Ruins"@
    } else {
        "Keep of Honed Edges"@
    }
}

/// Where each Ascendant Challenge is entered.
pub open spec fn challenge_location(i: int) -> Seq<char> {
    if i == 0 {
        "Bay of Drowned Wishes"@
    } else if i == 1 {
        "Chamber of Starlight"@
    } else if i == 2 {
        "Aphelion's Rest"@
    } else if i == 3 {
        "Gardens of Esila"@
    } else if i == 4 {
        "Spine of Keres"@
    } else {
        "Harbinger's Seclude"@
    }
}

/// A guide video for each Ascendant Challenge.
pub open spec fn challenge_url(i: int) -> Seq<char> {
    if i == 0 {
        "https://www.youtube.com/watch?v=xvHovs5CUMI"@
    } else if i == 1 {
        "https://www.youtube.com/watch?v=sAZrihxy_30"@
    } else if i == 2 {
        "https://www.youtube.com/watch?v=9-1a_jUxckQ"@
    } else if i == 3 {
        "https://www.youtube.com/watch?v=29Z0kg8MFQY"@
    } else if i == 4 {
        "https://www.youtube.com/watch?v=XUWD-IVuoHg"@
    } else {
        "https://www.youtube.com/watch?v=cDaNB-GEP-o"@
    }
}

fn challenge_exec(i: i64) -> (r: (&'static str, &'static str, &'static str))
    requires
        0 <= i < 6,
    ensures
        r.0@ == challenge_name(i as int),
        r.1@ == challenge_location(i as int),
        r.2@ == challenge_url(i as int),
{
    if i == 0 {
        ("Agonarch Abyss", "Bay of Drowned Wishes", "https://www.youtube.com/watch?v=xvHovs5CUMI")
    } else if i == 1 {
        (
            "Cimmerian Garrison",
            "Chamber of Starlight",
            "https://www.youtube.com/watch?v=sAZrihxy_30",
        )
    } else if i == 2 {
        ("Ouroborea", "Aphelion's Rest", "https://www.youtube.com/watch?v=9-1a_jUxckQ")
    } else if i == 3 {
        ("Forfeit Shrine", "Gardens of Esila", "https://www.youtube.com/watch?v=29Z0kg8MFQY")
    } else if i == 4 {
        ("Shattered Ruins", "Spine of Keres", "https://www.youtube.com/watch?v=XUWD-IVuoHg")
    } else {
        (
            "Keep of Honed Edges",
            "Harbinger's Seclude",
            "https://www.youtube.com/watch?v=cDaNB-GEP-o",
        )
    }
}

/// The raid announcement for the week containing `now`.
pub open spec fn raid_cycle_text(now: int) -> Seq<char> {
    "Weekly Featured Raid: "@ + raid_name(week_in_cycle(now, RAID_CYCLE_START as int, 4))
        + "\nNext Week Raid: "@ + raid_name(
        week_in_cycle(now + WEEK_SECONDS, RAID_CYCLE_START as int, 4),
    )
}

/// The Dreaming City announcement for the week containing `now`.
pub open spec fn dreaming_city_text(now: int) -> Seq<char> {
    let i = week_in_cycle(now, DREAMING_CITY_CYCLE_START as int, 3);
    "💫 Dreaming City: "@ + curse_name(i) + " \\- [Ascendant Chests]("@ + curse_url(i)
        + ")\n\\(Shattered Throne is always available\\)"@
}

/// The Ascendant Challenge announcement for the week containing `now`.
pub open spec fn ascendant_challenge_text(now: int) -> Seq<char> {
    let i = week_in_cycle(now, ASCENDANT_CHALLENGE_CYCLE_START as int, 6);
    "[Ascendant Challenge](https://www.shacknews.com/article/109219/ascendant-challenge-schedule-and-location-destiny-2): ["@
        + challenge_name(i) + "]("@ + challenge_url(i) + ") in the "@ + challenge_location(i)
}

/// The Destiny 1 weekly summary for the week containing `now`.
pub open spec fn d1_week_text(now: int) -> Seq<char> {
    "This week in Destiny 1:\n\n"@ + raid_cycle_text(now)
}

/// The Destiny 2 weekly summary, from its two parts.
pub open spec fn d2_week_text(dreaming_city: Seq<char>, challenge: Seq<char>) -> Seq<char> {
    "This week in Destiny 2:\n\n"@ + dreaming_city + "\n"@ + challenge
}

/// The raid announcement for the week containing `now`: this week's
/// featured raid and next week's.
pub fn raid_cycle_at(now: i64) -> (r: String)
    requires
        now > RAID_CYCLE_START - WEEK_SECONDS,
    ensures
        r@ == raid_cycle_text(now as int),
{
    let w = raid_week_number(now);
    let next: i64 = cycle_position_next_week(now, RAID_CYCLE_START, 4);
    proof {
        lemma_cycle_position_valid(now as int, RAID_CYCLE_START as int, 4);
        lemma_cycle_position_valid(now + WEEK_SECONDS, RAID_CYCLE_START as int, 4);
    }
    let mut v: Vec<char> = Vec::new();
    push_str(&mut v, "Weekly Featured Raid: ");
    push_str(&mut v, raid_name_exec(w));
    push_str(&mut v, "\nNext Week Raid: ");
    push_str(&mut v, raid_name_exec(next));
    chars_to_string(v.as_slice())
}

/// The rotation position of the week after the one containing `now`.
fn cycle_position_next_week(now: i64, start: i64, period: i64) -> (r: i64)
    requires
        0 < period <= 100,
    ensures
        r == week_in_cycle(now + WEEK_SECONDS, start as int, period as int),
{
    let d: i128 = (now as i128) + (WEEK_SECONDS as i128) - (start as i128);
    let w: i128 = WEEK_SECONDS as i128;
    let weeks: i128 = if d >= 0 {
        d / w
    } else {
        -((-d) / w)
    };
    let p: i128 = period as i128;
    let r: i128 = if weeks >= 0 {
        weeks % p
    } else {
        -((-weeks) % p)
    };
    assert(weeks == trunc_div(d as int, w as int));
    proof {
        lemma_trunc_rem(weeks as int, p as int);
    }
    r as i64
}

/// The Dreaming City announcement for the week containing `now`: the curse
/// strength and its Ascendant Chests guide.
pub fn dreaming_city_cycle_at(now: i64) -> (r: String)
    requires
        now > DREAMING_CITY_CYCLE_START - WEEK_SECONDS,
    ensures
        r@ == dreaming_city_text(now as int),
{
    let i = dc_week_number(now);
    proof {
        lemma_cycle_position_valid(now as int, DREAMING_CITY_CYCLE_START as int, 3);
    }
    let (curse, url) = curse_exec(i);
    let mut v: Vec<char> = Vec::new();
    push_str(&mut v, "💫 Dreaming City: ");
    push_str(&mut v, curse);
    push_str(&mut v, " \\- [Ascendant Chests](");
    push_str(&mut v, url);
    push_str(&mut v, ")\n\\(Shattered Throne is always available\\)");
    chars_to_string(v.as_slice())
}

/// The Ascendant Challenge announcement for the week containing `now`.
pub fn ascendant_challenge_cycle_at(now: i64) -> (r: String)
    requires
        now > ASCENDANT_CHALLENGE_CYCLE_START - WEEK_SECONDS,
    ensures
        r@ == ascendant_challenge_text(now as int),
{
    let i = ascendant_challenge_week_number(now);
    proof {
        lemma_cycle_position_valid(now as int, ASCENDANT_CHALLENGE_CYCLE_START as int, 6);
    }
    let (name, loc, url) = challenge_exec(i);
    let mut v: Vec<char> = Vec::new();
    push_str(
        &mut v,
        "[Ascendant Challenge](https://www.shacknews.com/article/109219/ascendant-challenge-schedule-and-location-destiny-2): [",
    );
    push_str(&mut v, name);
    push_str(&mut v, "](");
    push_str(&mut v, url);
    push_str(&mut v, ") in the ");
    push_str(&mut v, loc);
    chars_to_string(v.as_slice())
}

/// The Destiny 1 weekly summary for the week containing `now`.
pub fn this_week_in_d1_at(now: i64) -> (r: String)
    requires
        now > RAID_CYCLE_START - WEEK_SECONDS,
    ensures
        r@ == d1_week_text(now as int),
{
    let raid = raid_cycle_at(now);
    let mut v: Vec<char> = Vec::new();
    push_str(&mut v, "This week in Destiny 1:\n\n");
    push_str(&mut v, raid.as_str());
    chars_to_string(v.as_slice())
}

/// The Destiny 2 weekly summary from its Dreaming City and Ascendant
/// Challenge parts.
pub fn d2_week_summary(dreaming_city: &str, challenge: &str) -> (r: String)
    ensures
        r@ == d2_week_text(dreaming_city@, challenge@),
{
    let mut v: Vec<char> = Vec::new();
    push_str(&mut v, "This week in Destiny 2:\n\n");
    push_str(&mut v, dreaming_city);
    push_str(&mut v, "\n");
    push_str(&mut v, challenge);
    chars_to_string(v.as_slice())
}

// ---------------------------------------------------------------------------
// Announcements as of the current time
// ---------------------------------------------------------------------------

/// This week's raid announcement as of `now`: `None` where `now` lies more
/// than a week before the rotation began.
pub fn raid_cycle_as_of(now: i64) -> (r: Option<String>)
    ensures
        match r {
            Some(s) => now > RAID_CYCLE_START - WEEK_SECONDS && s@ == raid_cycle_text(now as int),
            None => now <= RAID_CYCLE_START - WEEK_SECONDS,
        },
{
    if now > RAID_CYCLE_START - WEEK_SECONDS {
        Some(raid_cycle_at(now))
    } else {
        None
    }
}

/// This week's Dreaming City announcement as of `now`: `None` where `now`
/// lies more than a week before the rotation began.
pub fn dreaming_city_cycle_as_of(now: i64) -> (r: Option<String>)
    ensures
        match r {
            Some(s) => now > DREAMING_CITY_CYCLE_START - WEEK_SECONDS && s@ == dreaming_city_text(
                now as int,
            ),
            None => now <= DREAMING_CITY_CYCLE_START - WEEK_SECONDS,
        },
{
    if now > DREAMING_CITY_CYCLE_START - WEEK_SECONDS {
        Some(dreaming_city_cycle_at(now))
    } else {
        None
    }
}

/// This week's Ascendant Challenge announcement as of `now`: `None` where
/// `now` lies more than a week before the rotation began.
pub fn ascendant_challenge_cycle_as_of(now: i64) -> (r: Option<String>)
    ensures
        match r {
            Some(s) => now > ASCENDANT_CHALLENGE_CYCLE_START - WEEK_SECONDS && s@
                == ascendant_challenge_text(now as int),
            None => now <= ASCENDANT_CHALLENGE_CYCLE_START - WEEK_SECONDS,
        },
{
    if now > ASCENDANT_CHALLENGE_CYCLE_START - WEEK_SECONDS {
        Some(ascendant_challenge_cycle_at(now))
    } else {
        None
    }
}

/// The Destiny 1 weekly summary as of `now`: `None` where `now` lies more
/// than a week before the raid rotation began.
pub fn this_week_in_d1_as_of(now: i64) -> (r: Option<String>)
    ensures
        match r {
            Some(s) => now > RAID_CYCLE_START - WEEK_SECONDS && s@ == d1_week_text(now as int),
            None => now <= RAID_CYCLE_START - WEEK_SECONDS,
        },
{
    if now > RAID_CYCLE_START - WEEK_SECONDS {
        Some(this_week_in_d1_at(now))
    } else {
        None
    }
}

/// The Destiny 2 weekly summary from the Dreaming City part as of
/// `dc_now` and the Ascendant Challenge part as of `ac_now`: `None` where
/// either time lies more than a week before its rotation began.
pub fn this_week_in_d2_as_of(dc_now: i64, ac_now: i64) -> (r: Option<String>)
    ensures
        match r {
            Some(s) => dc_now > DREAMING_CITY_CYCLE_START - WEEK_SECONDS && ac_now
                > ASCENDANT_CHALLENGE_CYCLE_START - WEEK_SECONDS && s@ == d2_week_text(
                dreaming_city_text(dc_now as int),
                ascendant_challenge_text(ac_now as int),
            ),
            None => dc_now <= DREAMING_CITY_CYCLE_START - WEEK_SECONDS || ac_now
                <= ASCENDANT_CHALLENGE_CYCLE_START - WEEK_SECONDS,
        },
{
    match (dreaming_city_cycle_as_of(dc_now), ascendant_challenge_cycle_as_of(ac_now)) {
        (Some(d), Some(a)) => Some(d2_week_summary(d.as_str(), a.as_str())),
        _ => None,
    }
}

/// Reads the system clock through `chrono::Utc::now()` and returns its Unix
/// timestamp in whole seconds. The claim: it is not negative (`Utc::now`
/// takes the time elapsed since the Unix epoch, and panics on a clock set
/// before it). Which instant it is depends on the moment of the call and is
/// not stated.
#[verifier::external_body]
fn current_timestamp() -> (t: i64)
    ensures
        t >= 0,
{
    chrono::Utc::now().timestamp()
}

/// This week's raid announcement, as of the clock. `None` where the clock
/// reads more than a week before the rotation began (where the announcement
/// has no raid to name).
pub fn raid_cycle() -> (r: Option<String>)
    ensures
        match r {
            Some(s) => exists|t: i64|
                t > RAID_CYCLE_START - WEEK_SECONDS && s@ == raid_cycle_text(t as int),
            None => true,
        },
{
    let now = current_timestamp();
    raid_cycle_as_of(now)
}

/// This week's Dreaming City announcement, as of the clock; `None` where the
/// clock reads more than a week before the rotation began.
pub fn dreaming_city_cycle() -> (r: Option<String>)
    ensures
        match r {
            Some(s) => exists|t: i64|
                t > DREAMING_CITY_CYCLE_START - WEEK_SECONDS && s@ == dreaming_city_text(t as int),
            None => true,
        },
{
    let now = current_timestamp();
    dreaming_city_cycle_as_of(now)
}

/// This week's Ascendant Challenge announcement, as of the clock; `None`
/// where the clock reads more than a week before the rotation began.
pub fn ascendant_challenge_cycle() -> (r: Option<String>)
    ensures
        match r {
            Some(s) => exists|t: i64|
                t > ASCENDANT_CHALLENGE_CYCLE_START - WEEK_SECONDS && s@
                    == ascendant_challenge_text(t as int),
            None => true,
        },
{
    let now = current_timestamp();
    ascendant_challenge_cycle_as_of(now)
}

/// The Destiny 1 weekly summary, as of the clock.
pub fn this_week_in_d1() -> (r: Option<String>)
    ensures
        match r {
            Some(s) => exists|t: i64|
                t > RAID_CYCLE_START - WEEK_SECONDS && s@ == d1_week_text(t as int),
            None => true,
        },
{
    let now = current_timestamp();
    this_week_in_d1_as_of(now)
}

/// The Destiny 2 weekly summary, as of the clock (read once for each part).
pub fn this_week_in_d2() -> (r: Option<String>)
    ensures
        match r {
            Some(s) => exists|t1: i64, t2: i64|
                t1 > DREAMING_CITY_CYCLE_START - WEEK_SECONDS && t2
                    > ASCENDANT_CHALLENGE_CYCLE_START - WEEK_SECONDS && s@ == d2_week_text(
                    dreaming_city_text(t1 as int),
                    ascendant_challenge_text(t2 as int),
                ),
            None => true,
        },
{
    let dc = dreaming_city_cycle();
    let ac = ascendant_challenge_cycle();
    match (dc, ac) {
        (Some(d), Some(a)) => Some(d2_week_summary(d.as_str(), a.as_str())),
        _ => None,
    }
}

} // verus!
