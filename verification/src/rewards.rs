//! Rewards for sparring sessions and combat tutorials: counting sessions, who gains
//! experience, and the summaries.

use vstd::prelude::*;

use crate::cache::CharacterCacheItem;
use crate::character_stats::fits_i64;
use crate::characters::{build_character_list, character_list};
use crate::text::{int_text, push_i64, push_str};

verus! {

/// A sparring session counted for one character.
#[derive(Clone, Copy, Debug, PartialEq, Eq, Structural)]
pub struct SparTracking {
    pub new_total_spar_count: i64,
    pub new_weekly_spar_count: i64,
    /// Whether the character gains the sparring reward.
    pub gains_experience: bool,
}

/// Counts one more sparring session; experience is granted while the new count of this
/// week's sessions stays within the guild's weekly limit.
pub fn track_spar(total_spar_count: i64, weekly_spar_count: i64, weekly_spar_limit: i64) -> (r: SparTracking)
    requires
        fits_i64(total_spar_count + 1),
        fits_i64(weekly_spar_count + 1),
    ensures
        r.new_total_spar_count == total_spar_count + 1,
        r.new_weekly_spar_count == weekly_spar_count + 1,
        r.gains_experience == (weekly_spar_count + 1 <= weekly_spar_limit),
{
    let new_weekly = weekly_spar_count + 1;
    SparTracking {
        new_total_spar_count: total_spar_count + 1,
        new_weekly_spar_count: new_weekly,
        gains_experience: new_weekly <= weekly_spar_limit,
    }
}

/// The summary of a sparring session: who sparred, and who received how much experience,
/// or that everyone had reached the weekly limit.
pub open spec fn spar_summary_text(participants: Seq<CharacterCacheItem>, gainers: Seq<CharacterCacheItem>, experience: int) -> Seq<char> {
    "Tracked a sparring session for "@ + character_list(participants) + if gainers.len() == 0 {
        ".\n*Everyone's already reached the weekly limit for sparring exp rewards.*"@
    } else if gainers.len() != participants.len() {
        ".\n"@ + character_list(gainers) + " received "@ + int_text(experience)
            + " experience points. *(Everyone who did not receive any already reached the weekly limit)*"@
    } else {
        ".\n"@ + character_list(gainers) + " received "@ + int_text(experience) + " experience points!"@
    }
}

/// The summary of a sparring session.
pub fn spar_summary(participants: &[CharacterCacheItem], gainers: &[CharacterCacheItem], experience: i64) -> (s: String)
    ensures
        s@ == spar_summary_text(participants@, gainers@, experience as int),
{
    let mut s = String::new();
    push_str(&mut s, "Tracked a sparring session for ");
    let list = build_character_list(participants);
    push_str(&mut s, list.as_str());
    if gainers.len() == 0 {
        push_str(&mut s, ".\n*Everyone's already reached the weekly limit for sparring exp rewards.*");
    } else {
        push_str(&mut s, ".\n");
        let gained = build_character_list(gainers);
        push_str(&mut s, gained.as_str());
        push_str(&mut s, " received ");
        push_i64(&mut s, experience);
        if gainers.len() != participants.len() {
            push_str(&mut s, " experience points. *(Everyone who did not receive any already reached the weekly limit)*");
        } else {
            push_str(&mut s, " experience points!");
        }
    }
    assert(s@ =~= spar_summary_text(participants@, gainers@, experience as int));
    s
}

/// The action-log message of a tracked sparring session.
pub fn spar_log_message(name: &str) -> (s: String)
    ensures
        s@ == "Tracked a sparring session for "@ + name@ + "!"@,
{
    let mut s = String::new();
    push_str(&mut s, "Tracked a sparring session for ");
    push_str(&mut s, name);
    push_str(&mut s, "!");
    s
}

/// The action-log message of a given combat tutorial.
pub fn combat_tutorial_log_message(name: &str) -> (s: String)
    ensures
        s@ == name@ + " gave a combat tutorial!"@,
{
    let mut s = String::new();
    push_str(&mut s, name);
    push_str(&mut s, " gave a combat tutorial!");
    s
}

/// The reply after a combat tutorial was rewarded.
pub fn combat_tutorial_reply(name: &str, experience: i64) -> (s: String)
    ensures
        s@ == "Tracked that "@ + name@ + " gave a combat tutorial. They gained "@ + int_text(experience as int)
            + " experience points as a reward!"@,
{
    let mut s = String::new();
    push_str(&mut s, "Tracked that ");
    push_str(&mut s, name);
    push_str(&mut s, " gave a combat tutorial. They gained ");
    push_i64(&mut s, experience);
    push_str(&mut s, " experience points as a reward!");
    s
}

/// The refusal when no character has the given name.
pub const CHARACTER_NOT_FOUND: &'static str = "Unable to find a character with that name.";

} // verus!
