//! Creating a character: checking the name, filling in defaults, the starting stats,
//! and the action-log entry.

use vstd::prelude::*;

use crate::characters::{is_plain_name, validate_user_input, QUERY_INVALID, QUERY_TOO_LONG};
use crate::emoji::POKE_COIN;
use crate::game::{Gender, Pokemon};
use crate::text::{byte_len, int_text, push_i64, push_str};

verus! {

/// The money a new character starts with unless told otherwise.
pub const DEFAULT_STARTING_MONEY: i64 = 500;

/// The reply when a character was created.
pub const CHARACTER_CREATED: &'static str = "Character has been successfully created!";

/// The reply when the character could not be stored.
pub const CHARACTER_NOT_CREATED: &'static str = "Something went wrong! Does a character with this name already exist for this specific player?";

/// The text that the character's post shows until the sheet replaces it.
pub const SHEET_PLACEHOLDER: &'static str = "[Placeholder. This should get replaced or deleted within a couple seconds.]";

/// How a phenotype is stored: its position in the declaration.
pub open spec fn phenotype_of(g: Gender) -> i64 {
    match g {
        Gender::Male => 0,
        Gender::Female => 1,
    }
}

/// What is stored for a new character.
pub struct NewCharacter {
    pub name: String,
    pub is_shiny: bool,
    pub experience: i64,
    pub money: i64,
    pub phenotype: i64,
    pub stat_strength: i64,
    pub stat_dexterity: i64,
    pub stat_vitality: i64,
    pub stat_special: i64,
    pub stat_insight: i64,
    /// The action-log message of the creation.
    pub log_message: String,
}

/// The action-log message of a creation.
pub open spec fn initialization_log_text(name: Seq<char>, species: Seq<char>, money: int, exp: int) -> Seq<char> {
    "Initialized character "@ + name + " ("@ + species + ") with "@ + int_text(money) + seq![' '] + POKE_COIN@
        + " and "@ + int_text(exp) + " exp."@
}

/// Plans a new character: the name must pass `validate_user_input`; shininess defaults
/// to false, experience to 0 and money to 500; the stats start at the minima of
/// `stat_species`, the evolution stage whose stats the character's level uses.
pub fn plan_new_character(
    name: &str,
    species: &Pokemon,
    is_shiny: Option<bool>,
    gender: Gender,
    exp: Option<i64>,
    money: Option<i64>,
    stat_species: &Pokemon,
) -> (r: Result<NewCharacter, &'static str>)
    ensures
        byte_len(name@) > 30 ==> r == Err::<NewCharacter, &'static str>(QUERY_TOO_LONG),
        byte_len(name@) <= 30 && !is_plain_name(name@) ==> r == Err::<NewCharacter, &'static str>(QUERY_INVALID),
        r is Ok <==> byte_len(name@) <= 30 && is_plain_name(name@),
        r matches Ok(c) ==> {
            let e = match exp { Some(x) => x, None => 0 };
            let m = match money { Some(x) => x, None => DEFAULT_STARTING_MONEY };
            &&& c.name@ == name@
            &&& c.is_shiny == match is_shiny { Some(b) => b, None => false }
            &&& c.experience == e
            &&& c.money == m
            &&& c.phenotype == phenotype_of(gender)
            &&& c.stat_strength == stat_species.strength.min
            &&& c.stat_dexterity == stat_species.dexterity.min
            &&& c.stat_vitality == stat_species.vitality.min
            &&& c.stat_special == stat_species.special.min
            &&& c.stat_insight == stat_species.insight.min
            &&& c.log_message@ == initialization_log_text(name@, species.name@, m as int, e as int)
        },
{
    match validate_user_input(name) {
        Err(e) => {
            return Err(e);
        },
        Ok(()) => {},
    }
    let is_shiny = match is_shiny {
        Some(b) => b,
        None => false,
    };
    let exp = match exp {
        Some(x) => x,
        None => 0,
    };
    let money = match money {
        Some(x) => x,
        None => DEFAULT_STARTING_MONEY,
    };
    let phenotype: i64 = match gender {
        Gender::Male => 0,
        Gender::Female => 1,
    };
    let mut log_message = String::new();
    push_str(&mut log_message, "Initialized character ");
    push_str(&mut log_message, name);
    push_str(&mut log_message, " (");
    push_str(&mut log_message, species.name.as_str());
    push_str(&mut log_message, ") with ");
    push_i64(&mut log_message, money);
    push_str(&mut log_message, " ");
    push_str(&mut log_message, POKE_COIN);
    push_str(&mut log_message, " and ");
    push_i64(&mut log_message, exp);
    push_str(&mut log_message, " exp.");
    proof {
        reveal_strlit(" ");
    }
    assert(log_message@ =~= initialization_log_text(name@, species.name@, money as int, exp as int));
    let mut stored_name = String::new();
    push_str(&mut stored_name, name);
    Ok(NewCharacter {
        name: stored_name,
        is_shiny,
        experience: exp,
        money,
        phenotype,
        stat_strength: stat_species.strength.min as i64,
        stat_dexterity: stat_species.dexterity.min as i64,
        stat_vitality: stat_species.vitality.min as i64,
        stat_special: stat_species.special.min as i64,
        stat_insight: stat_species.insight.min as i64,
        log_message,
    })
}

} // verus!
