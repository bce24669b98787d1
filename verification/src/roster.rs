//! Retiring characters and resetting their stats.

use vstd::prelude::*;

use crate::character_stats::{CharacterStat, CharacterStatType, GenericCharacterStats};
use crate::game::Pokemon;
use crate::text::push_str;

verus! {

/// The stats of a character after a reset: each combat stat at the species' minimum,
/// each social stat at 1.
pub struct ResetStats {
    pub strength: i64,
    pub dexterity: i64,
    pub vitality: i64,
    pub special: i64,
    pub insight: i64,
    pub social: i64,
}

/// The stats after a reset for a species.
pub fn reset_stats_for(species: &Pokemon) -> (r: ResetStats)
    ensures
        r.strength == species.strength.min,
        r.dexterity == species.dexterity.min,
        r.vitality == species.vitality.min,
        r.special == species.special.min,
        r.insight == species.insight.min,
        r.social == 1,
{
    ResetStats {
        strength: species.strength.min as i64,
        dexterity: species.dexterity.min as i64,
        vitality: species.vitality.min as i64,
        special: species.special.min as i64,
        insight: species.insight.min as i64,
        social: 1,
    }
}

/// A character whose stats were reset has spent no point: neither its combat stats,
/// taken at the species' minima, nor its social stats, all at 1.
pub proof fn law_reset_spends_nothing(species: Pokemon, combat: GenericCharacterStats, social: GenericCharacterStats)
    requires
        combat.kind == (CharacterStatType::Combat { base_hp: species.base_hp }),
        combat.strength_or_tough == (CharacterStat { current: species.strength.min as i64, min: species.strength.min as i64, max: species.strength.max as i64 }),
        combat.dexterity_or_cool == (CharacterStat { current: species.dexterity.min as i64, min: species.dexterity.min as i64, max: species.dexterity.max as i64 }),
        combat.vitality_or_beauty == (CharacterStat { current: species.vitality.min as i64, min: species.vitality.min as i64, max: species.vitality.max as i64 }),
        combat.special_or_cute == (CharacterStat { current: species.special.min as i64, min: species.special.min as i64, max: species.special.max as i64 }),
        combat.insight_or_clever == (CharacterStat { current: species.insight.min as i64, min: species.insight.min as i64, max: species.insight.max as i64 }),
        species.strength.min <= species.strength.max,
        species.dexterity.min <= species.dexterity.max,
        species.vitality.min <= species.vitality.max,
        species.special.min <= species.special.max,
        species.insight.min <= species.insight.max,
        social.kind == CharacterStatType::Social,
        social.strength_or_tough == (CharacterStat { current: 1, min: 1, max: 5 }),
        social.dexterity_or_cool == (CharacterStat { current: 1, min: 1, max: 5 }),
        social.vitality_or_beauty == (CharacterStat { current: 1, min: 1, max: 5 }),
        social.special_or_cute == (CharacterStat { current: 1, min: 1, max: 5 }),
        social.insight_or_clever == (CharacterStat { current: 1, min: 1, max: 5 }),
    ensures
        combat.invested_total() == 0,
        social.invested_total() == 0,
{
}

/// The reply after a reset.
pub fn stats_reset_reply(name: &str) -> (s: String)
    ensures
        s@ == name@ + "'s stats have been reset."@,
{
    let mut s = String::new();
    push_str(&mut s, name);
    push_str(&mut s, "'s stats have been reset.");
    s
}

/// The action-log message of a reset.
pub fn stats_reset_log_message(name: &str) -> (s: String)
    ensures
        s@ == "Reset "@ + name@ + "'s stats"@,
{
    let mut s = String::new();
    push_str(&mut s, "Reset ");
    push_str(&mut s, name);
    push_str(&mut s, "'s stats");
    s
}

/// The message of a retirement.
pub fn retirement_message(name: &str) -> (s: String)
    ensures
        s@ == name@ + " has been retired."@,
{
    let mut s = String::new();
    push_str(&mut s, name);
    push_str(&mut s, " has been retired.");
    s
}

/// The action-log message of a return from retirement.
pub fn unretirement_log_message(name: &str) -> (s: String)
    ensures
        s@ == name@ + " has returned from their retirement."@,
{
    let mut s = String::new();
    push_str(&mut s, name);
    push_str(&mut s, " has returned from their retirement.");
    s
}

} // verus!
