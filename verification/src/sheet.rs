//! The character sheet: the message that a character's post shows, and the buttons
//! for stat points left to distribute.

use vstd::prelude::*;

use crate::character_stats::{fits_i64, GenericCharacterStats};
use crate::characters::{build_tera_charges, tera_section, TeraCharge, DEFAULT_BACKPACK_SLOTS};
use crate::emoji::{BACKPACK, BATTLE_POINT, CROSSED_SWORDS, FENCING, POKE_COIN, TICKET, TROPHY};
use crate::text::{int_text, push_i64, push_str};

verus! {

/// What a character sheet shows, as read from the character's record and the game data.
pub struct CharacterSheetRecord {
    pub id: i64,
    pub name: String,
    /// The emoji of the character's rank.
    pub rank_emoji: String,
    /// The species' emoji in this guild, if it has one.
    pub species_emoji: Option<String>,
    pub species_name: String,
    pub is_retired: bool,
    pub level: i64,
    /// The experience within the current level.
    pub experience: i64,
    pub money: i64,
    pub battle_points: i64,
    pub type1_emoji: String,
    pub type2_emoji: Option<String>,
    /// The species whose base stats are used in place of the character's own.
    pub species_override_name: Option<String>,
    pub combat_stats: GenericCharacterStats,
    pub social_stats: GenericCharacterStats,
    pub ability_list: String,
    /// The terastallization charges, in the order the sheet lists them.
    pub tera_charges: Vec<TeraCharge>,
    pub backpack_upgrade_count: i64,
    pub completed_quest_count: i32,
    pub total_spar_count: i64,
    pub total_new_player_tour_count: i64,
    pub total_new_player_combat_tutorial_count: i64,
    /// The combat points that the character's level grants.
    pub available_combat_points: i64,
    /// The social points that the character's rank grants.
    pub available_social_points: i64,
}

/// A character sheet: its text and the stat points left to distribute.
pub struct CharacterSheet {
    pub message: String,
    pub remaining_combat_points: i64,
    pub remaining_social_points: i64,
}

/// The emoji shown for the species: its own, or its name in brackets.
pub open spec fn species_emoji_text(r: CharacterSheetRecord) -> Seq<char> {
    match r.species_emoji {
        Some(e) => e@,
        None => seq!['['] + r.species_name@ + seq![']'],
    }
}

/// The species' type emoji, two of them separated by a slash.
pub open spec fn type_emojis_text(r: CharacterSheetRecord) -> Seq<char> {
    match r.type2_emoji {
        Some(t2) => r.type1_emoji@ + seq!['/'] + t2@,
        None => r.type1_emoji@,
    }
}

/// The note on base stats taken from another species.
pub open spec fn override_text(r: CharacterSheetRecord) -> Seq<char> {
    match r.species_override_name {
        Some(n) => " | [Override: Using base stats for "@ + n@ + seq![']'],
        None => Seq::empty(),
    }
}

/// The battle points on a line of their own, if the character has any.
pub open spec fn battle_points_text(r: CharacterSheetRecord) -> Seq<char> {
    if r.battle_points > 0 {
        seq!['\n'] + int_text(r.battle_points as int) + seq![' '] + BATTLE_POINT@
    } else {
        Seq::empty()
    }
}

/// A statistics line, shown only where the count is positive.
pub open spec fn count_line(count: int, emoji: Seq<char>, label: Seq<char>) -> Seq<char> {
    if count > 0 {
        emoji + seq![' '] + label + int_text(count) + seq!['\n']
    } else {
        Seq::empty()
    }
}

/// The text of a character sheet.
pub open spec fn sheet_message(r: CharacterSheetRecord) -> Seq<char> {
    title_line(r) + level_and_money(r) + stats_heading(r) + "\n```\n"@ + r.combat_stats.block_text() + seq!['\n'] + r.social_stats.block_text()
        + "\n```\n### Abilities \n"@ + r.ability_list@ + tera_section(r.tera_charges@)
        + "### Statistics\n"@ + BACKPACK@ + " Backpack Slots: "@
        + int_text(r.backpack_upgrade_count + DEFAULT_BACKPACK_SLOTS) + "\n\n"@
        + count_line(r.completed_quest_count as int, TROPHY@, "Completed Quests: "@)
        + count_line(r.total_spar_count as int, FENCING@, "Total Sparring Sessions: "@)
        + count_line(r.total_new_player_tour_count as int, TICKET@, "Given tours: "@)
        + count_line(
            r.total_new_player_combat_tutorial_count as int,
            CROSSED_SWORDS@,
            "Given combat tutorials: "@,
        )
}

/// The combat points left to distribute.
pub open spec fn remaining_combat(r: CharacterSheetRecord) -> int {
    r.available_combat_points - r.combat_stats.invested_total()
}

/// The social points left to distribute.
pub open spec fn remaining_social(r: CharacterSheetRecord) -> int {
    r.available_social_points - r.social_stats.invested_total()
}

/// Whether every number of the sheet can be computed without overflow.
pub open spec fn sheet_computable(r: CharacterSheetRecord) -> bool {
    &&& r.combat_stats.kind is Combat
    &&& r.social_stats.kind is Social
    &&& r.combat_stats.printable()
    &&& r.combat_stats.invested_points_fit()
    &&& r.social_stats.invested_points_fit()
    &&& fits_i64(r.backpack_upgrade_count + DEFAULT_BACKPACK_SLOTS)
    &&& fits_i64(remaining_combat(r))
    &&& fits_i64(remaining_social(r))
    &&& fits_i64(remaining_combat(r) + remaining_social(r))
    &&& forall|k: int| 0 <= k < r.tera_charges.len() ==> #[trigger] r.tera_charges@[k].unlocked > 0
        ==> fits_i64(r.tera_charges@[k].unlocked - r.tera_charges@[k].used)
}

fn push_count_line(s: &mut String, count: i64, emoji: &str, label: &str)
    ensures
        final(s)@ == old(s)@ + count_line(count as int, emoji@, label@),
{
    if count > 0 {
        push_str(s, emoji);
        push_str(s, " ");
        push_str(s, label);
        push_i64(s, count);
        push_str(s, "\n");
        proof {
            reveal_strlit(" ");
            reveal_strlit("\n");
        }
        assert(s@ =~= old(s)@ + count_line(count as int, emoji@, label@));
    }
}

/// The title line: rank, name, species emoji and the retirement mark.
pub open spec fn title_line(r: CharacterSheetRecord) -> Seq<char> {
    "## "@ + r.rank_emoji@ + seq![' '] + r.name@ + seq![' '] + species_emoji_text(r) + seq![' ']
        + (if r.is_retired { "[RETIRED]"@ } else { Seq::empty() })
}

/// The level line and the money line, with the battle points after them.
pub open spec fn level_and_money(r: CharacterSheetRecord) -> Seq<char> {
    "\n**Level "@ + int_text(r.level as int) + "** `("@ + int_text(r.experience as int)
        + " / 100)`\n"@ + int_text(r.money as int) + seq![' '] + POKE_COIN@ + seq![' ']
        + battle_points_text(r)
}

/// The heading of the stats: the type emoji and the override note.
pub open spec fn stats_heading(r: CharacterSheetRecord) -> Seq<char> {
    "\n### Stats "@ + type_emojis_text(r) + override_text(r)
}

fn push_title(s: &mut String, r: &CharacterSheetRecord)
    ensures
        final(s)@ == old(s)@ + title_line(*r),
{
    proof {
        reveal_strlit(" ");
        reveal_strlit("[");
        reveal_strlit("]");
    }
    push_str(s, "## ");
    push_str(s, r.rank_emoji.as_str());
    push_str(s, " ");
    push_str(s, r.name.as_str());
    push_str(s, " ");
    match &r.species_emoji {
        Some(e) => push_str(s, e.as_str()),
        None => {
            push_str(s, "[");
            push_str(s, r.species_name.as_str());
            push_str(s, "]");
        },
    }
    push_str(s, " ");
    if r.is_retired {
        push_str(s, "[RETIRED]");
    }
    assert(s@ =~= old(s)@ + title_line(*r));
}

fn push_level_and_money(s: &mut String, r: &CharacterSheetRecord)
    ensures
        final(s)@ == old(s)@ + level_and_money(*r),
{
    proof {
        reveal_strlit(" ");
        reveal_strlit("\n");
    }
    push_str(s, "\n**Level ");
    push_i64(s, r.level);
    push_str(s, "** `(");
    push_i64(s, r.experience);
    push_str(s, " / 100)`\n");
    push_i64(s, r.money);
    push_str(s, " ");
    push_str(s, POKE_COIN);
    push_str(s, " ");
    let ghost mid = s@;
    if r.battle_points > 0 {
        push_str(s, "\n");
        push_i64(s, r.battle_points);
        push_str(s, " ");
        push_str(s, BATTLE_POINT);
    }
    assert(s@ =~= mid + battle_points_text(*r));
    assert(s@ =~= old(s)@ + level_and_money(*r));
}

fn push_stats_heading(s: &mut String, r: &CharacterSheetRecord)
    ensures
        final(s)@ == old(s)@ + stats_heading(*r),
{
    proof {
        reveal_strlit("/");
        reveal_strlit("]");
    }
    push_str(s, "\n### Stats ");
    push_str(s, r.type1_emoji.as_str());
    match &r.type2_emoji {
        Some(t2) => {
            push_str(s, "/");
            push_str(s, t2.as_str());
        },
        None => {},
    }
    let ghost mid = s@;
    match &r.species_override_name {
        Some(n) => {
            push_str(s, " | [Override: Using base stats for ");
            push_str(s, n.as_str());
            push_str(s, "]");
        },
        None => {},
    }
    assert(s@ =~= mid + override_text(*r));
    assert(s@ =~= old(s)@ + stats_heading(*r));
}

/// Builds a character's sheet from its record.
pub fn build_character_sheet(r: &CharacterSheetRecord) -> (sheet: CharacterSheet)
    requires
        sheet_computable(*r),
    ensures
        sheet.message@ == sheet_message(*r),
        sheet.remaining_combat_points == remaining_combat(*r),
        sheet.remaining_social_points == remaining_social(*r),
{
    let mut message = String::new();
    push_title(&mut message, r);
    push_level_and_money(&mut message, r);
    push_stats_heading(&mut message, r);
    push_str(&mut message, "\n```\n");
    let combat = r.combat_stats.build_string();
    push_str(&mut message, combat.as_str());
    push_str(&mut message, "\n");
    let social = r.social_stats.build_string();
    push_str(&mut message, social.as_str());
    push_str(&mut message, "\n```\n### Abilities \n");
    push_str(&mut message, r.ability_list.as_str());
    let tera = build_tera_charges(&r.tera_charges);
    push_str(&mut message, tera.as_str());
    push_str(&mut message, "### Statistics\n");
    push_str(&mut message, BACKPACK);
    push_str(&mut message, " Backpack Slots: ");
    push_i64(&mut message, r.backpack_upgrade_count + DEFAULT_BACKPACK_SLOTS);
    push_str(&mut message, "\n\n");
    push_count_line(&mut message, r.completed_quest_count as i64, TROPHY, "Completed Quests: ");
    push_count_line(&mut message, r.total_spar_count, FENCING, "Total Sparring Sessions: ");
    push_count_line(&mut message, r.total_new_player_tour_count, TICKET, "Given tours: ");
    push_count_line(
        &mut message,
        r.total_new_player_combat_tutorial_count,
        CROSSED_SWORDS,
        "Given combat tutorials: ",
    );
    proof {
        reveal_strlit("\n");
    }
    assert(message@ =~= sheet_message(*r));
    let remaining_combat_points = r.available_combat_points
        - r.combat_stats.calculate_invested_stat_points();
    let remaining_social_points = r.available_social_points
        - r.social_stats.calculate_invested_stat_points();
    CharacterSheet { message, remaining_combat_points, remaining_social_points }
}

/// A button of a character sheet: its id and its label.
pub struct SheetButton {
    pub custom_id: String,
    pub label: String,
}

/// The button for combat points left, if there are any.
pub open spec fn combat_button(character_id: int, remaining: int) -> Seq<(Seq<char>, Seq<char>)> {
    if remaining > 0 {
        seq![("ce_initialize_combat_"@ + int_text(character_id), int_text(remaining) + " Remaining Stat Points"@)]
    } else {
        Seq::empty()
    }
}

/// The button for social points left, if there are any.
pub open spec fn social_button(character_id: int, remaining: int) -> Seq<(Seq<char>, Seq<char>)> {
    if remaining > 0 {
        seq![("ce_initialize_social_"@ + int_text(character_id), int_text(remaining) + " Remaining Social Points"@)]
    } else {
        Seq::empty()
    }
}

/// The ids and labels of the buttons.
pub open spec fn button_views(buttons: Seq<SheetButton>) -> Seq<(Seq<char>, Seq<char>)> {
    buttons.map_values(|b: SheetButton| (b.custom_id@, b.label@))
}

/// The buttons that let a player distribute the points left: none unless the points left
/// add up to more than zero; else one for combat points and one for social points, each
/// shown only where such points are left.
pub fn stat_point_buttons(character_id: i64, remaining_combat: i64, remaining_social: i64) -> (buttons: Vec<SheetButton>)
    ensures
        button_views(buttons@) == if remaining_combat + remaining_social > 0 {
            combat_button(character_id as int, remaining_combat as int)
                + social_button(character_id as int, remaining_social as int)
        } else {
            Seq::empty()
        },
{
    let mut buttons: Vec<SheetButton> = Vec::new();
    if (remaining_combat as i128) + (remaining_social as i128) <= 0 {
        assert(button_views(buttons@) =~= Seq::empty());
        return buttons;
    }
    if remaining_combat > 0 {
        let mut custom_id = String::new();
        push_str(&mut custom_id, "ce_initialize_combat_");
        push_i64(&mut custom_id, character_id);
        let mut label = String::new();
        push_i64(&mut label, remaining_combat);
        push_str(&mut label, " Remaining Stat Points");
        buttons.push(SheetButton { custom_id, label });
    }
    let ghost first = buttons@;
    assert(button_views(first) =~= combat_button(character_id as int, remaining_combat as int));
    if remaining_social > 0 {
        let mut custom_id = String::new();
        push_str(&mut custom_id, "ce_initialize_social_");
        push_i64(&mut custom_id, character_id);
        let mut label = String::new();
        push_i64(&mut label, remaining_social);
        push_str(&mut label, " Remaining Social Points");
        buttons.push(SheetButton { custom_id, label });
    }
    assert(button_views(buttons@) =~= combat_button(character_id as int, remaining_combat as int)
        + social_button(character_id as int, remaining_social as int));
    buttons
}

} // verus!
