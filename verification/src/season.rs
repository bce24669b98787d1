//! The in-game season, which changes every week.

use vstd::prelude::*;

verus! {

/// The seasons in their order.
pub open spec fn season_names() -> Seq<Seq<char>> {
    seq!["Spring"@, "Summer"@, "Autumn"@, "Winter"@]
}

/// The season of a week counted from Monday, 4 January 2021: spring, summer, autumn and
/// winter in turn, one week each. Weeks before that day count backwards in the same turn.
pub fn season_for_weeks(weeks_since_epoch: i64) -> (s: &'static str)
    ensures
        s@ == season_names()[weeks_since_epoch as int % 4],
{
    let r: i64 = weeks_since_epoch % 4;
    let index: i64 = if r < 0 { r + 4 } else { r };
    assert(index == weeks_since_epoch as int % 4);
    if index == 0 {
        "Spring"
    } else if index == 1 {
        "Summer"
    } else if index == 2 {
        "Autumn"
    } else {
        "Winter"
    }
}

/// The seasons turn week by week: the week after any week has the next season, winter
/// is followed by spring, and four weeks later the same season comes again.
pub proof fn law_seasons_turn_weekly(weeks: int)
    ensures
        season_names()[(weeks + 1) % 4] == season_names()[(weeks % 4 + 1) % 4],
        season_names()[weeks % 4] == "Winter"@ ==> season_names()[(weeks + 1) % 4] == "Spring"@,
        season_names()[(weeks + 4) % 4] == season_names()[weeks % 4],
{
    reveal_strlit("Spring");
    reveal_strlit("Summer");
    reveal_strlit("Autumn");
    reveal_strlit("Winter");
    assert((weeks + 1) % 4 == (weeks % 4 + 1) % 4);
    assert((weeks + 4) % 4 == weeks % 4);
    if season_names()[weeks % 4] == "Winter"@ {
        assert(weeks % 4 == 3) by {
            if weeks % 4 != 3 {
                assert(season_names()[weeks % 4][0] != "Winter"@[0]);
            }
        }
    }
}

/// Monday, 4 January 2021, 00:00 UTC, in seconds since 1970.
pub const SEASON_EPOCH: i64 = 1609718400;

/// The seconds in a week.
pub const SECONDS_PER_WEEK: i64 = 604800;

/// The whole weeks from the season epoch to a time in seconds since 1970, counted toward
/// zero as `chrono`'s `TimeDelta::num_weeks` counts them.
pub open spec fn weeks_since_epoch(timestamp: int) -> int {
    let d = timestamp - SEASON_EPOCH;
    if d >= 0 { d / SECONDS_PER_WEEK as int } else { -((-d) / SECONDS_PER_WEEK as int) }
}

/// The whole weeks from the season epoch to a time.
pub fn weeks_since_season_epoch(timestamp: i64) -> (w: i64)
    ensures
        w == weeks_since_epoch(timestamp as int),
{
    if timestamp >= SEASON_EPOCH {
        (timestamp - SEASON_EPOCH) / SECONDS_PER_WEEK
    } else {
        let d: u64 = (SEASON_EPOCH as i128 - timestamp as i128) as u64;
        -((d / (SECONDS_PER_WEEK as u64)) as i64)
    }
}

/// `chrono::Utc::now().timestamp()`: the current time in whole seconds since 1970. It
/// depends on the clock, so nothing is stated of it.
#[verifier::external_body]
fn utc_timestamp() -> (t: i64) {
    chrono::Utc::now().timestamp()
}

/// The season at a time in seconds since 1970: that of the week in which it falls.
pub fn season_at(timestamp: i64) -> (s: &'static str)
    ensures
        s@ == season_names()[weeks_since_epoch(timestamp as int) % 4],
{
    let weeks = weeks_since_season_epoch(timestamp);
    season_for_weeks(weeks)
}

/// The current season: that of the week in which the clock's time falls.
pub fn get_current_season() -> (s: &'static str)
    ensures
        exists|now: i64| s@ == season_names()[weeks_since_epoch(now as int) % 4],
        season_names().contains(s@),
{
    let now = utc_timestamp();
    let s = season_at(now);
    assert(season_names()[weeks_since_epoch(now as int) % 4] == s@);
    s
}

/// The answer of the season command.
pub fn season_message(season: &str) -> (s: String)
    ensures
        s@ == "🌱 [System] The current season is: **"@ + season@ + "**!"@,
{
    let mut s = String::new();
    crate::text::push_str(&mut s, "🌱 [System] The current season is: **");
    crate::text::push_str(&mut s, season);
    crate::text::push_str(&mut s, "**!");
    s
}

} // verus!
