use pokerole_discord_bot::character_stats::{CharacterStat, CharacterStatType, GenericCharacterStats};
use pokerole_discord_bot::characters::TeraCharge;
use pokerole_discord_bot::game::{MysteryDungeonRank, Pokemon, PokemonStat, PokemonType, PokemonTypeWithoutShadow, RankedMove};
use pokerole_discord_bot::sheet::{build_character_sheet, stat_point_buttons, CharacterSheetRecord};

fn stat(min: u8, max: u8) -> PokemonStat {
    PokemonStat { min, max }
}

fn pikachu() -> Pokemon {
    Pokemon {
        name: "Pikachu".to_string(),
        poke_api_id: 25,
        generation: 1,
        has_gender_differences: true,
        regional_variant: None,
        type1: PokemonType::Electric,
        type2: None,
        base_hp: 3,
        strength: stat(2, 4),
        dexterity: stat(2, 5),
        vitality: stat(1, 3),
        special: stat(2, 4),
        insight: stat(2, 4),
        ability1: "Static".to_string(),
        ability2: None,
        hidden_ability: Some("Lightning Rod".to_string()),
        moves_by_rank: vec![RankedMove { name: "Thunder Shock".to_string(), rank: MysteryDungeonRank::Bronze }],
    }
}

#[test]
fn stats_take_the_species_ranges() {
    let s = CharacterStat::from_poke(3, &stat(2, 4));
    assert_eq!((s.current, s.min, s.max), (3, 2, 4));
    assert_eq!(s.invested_points(), 1);
    assert_eq!(s.count_limit_breaks(), 0);
    let s = CharacterStat::from_social(7);
    assert_eq!((s.min, s.max), (1, 5));
    assert_eq!(s.count_limit_breaks(), 2);
}

#[test]
fn stat_rows_pad_names_and_draw_dots() {
    assert_eq!(
        GenericCharacterStats::build_stat_row("Strength", &CharacterStat { current: 2, min: 2, max: 4 }, 10),
        "Strength:  2 |⬤⬤⭘⭘\n"
    );
    assert_eq!(
        GenericCharacterStats::build_stat_row("Cool", &CharacterStat { current: 5, min: 1, max: 5 }, 7),
        "Cool:   5 |⬤⬤⬤⬤⬤\n"
    );
    assert_eq!(
        GenericCharacterStats::build_stat_row("Cute", &CharacterStat { current: 6, min: 1, max: 5 }, 7),
        "Cute:   6 |⬤⬤⬤⬤⬤⦿\n"
    );
}

#[test]
fn combat_block_shows_hp_willpower_and_defenses() {
    let stats = GenericCharacterStats::from_combat(&pikachu(), 2, 2, 1, 2, 2);
    assert_eq!(
        stats.build_string(),
        "HP: 8\nWillpower: 4\n\nStrength:  2 |⬤⬤⭘⭘\nDexterity: 2 |⬤⬤⭘⭘⭘\nVitality:  1 |⬤⭘⭘\nSpecial:   2 |⬤⬤⭘⭘\nInsight:   2 |⬤⬤⭘⭘\n\nDefense: 1\nSpecial Defense: 1\n"
    );
}

#[test]
fn halves_round_up_like_the_float_formula() {
    let mut stats = GenericCharacterStats::from_combat(&pikachu(), 2, 2, -1, 2, 3);
    stats.kind = CharacterStatType::Combat { base_hp: 3 };
    let text = stats.build_string();
    assert!(text.contains("\nDefense: -0\n"));
    assert!(text.contains("\nSpecial Defense: 2\n"));
}

#[test]
fn social_block_is_the_rows_only() {
    let stats = GenericCharacterStats::from_social(1, 2, 3, 4, 5);
    assert_eq!(
        stats.build_string(),
        "Tough:  1 |⬤⭘⭘⭘⭘\nCool:   2 |⬤⬤⭘⭘⭘\nBeauty: 3 |⬤⬤⬤⭘⭘\nCute:   4 |⬤⬤⬤⬤⭘\nClever: 5 |⬤⬤⬤⬤⬤\n"
    );
}

#[test]
fn invested_points_charge_for_limit_breaks() {
    assert_eq!(GenericCharacterStats::from_social(1, 1, 1, 1, 1).calculate_invested_stat_points(), 0);
    assert_eq!(GenericCharacterStats::from_social(2, 3, 1, 1, 1).calculate_invested_stat_points(), 3);
    // One break: 1 + 1 extra points, two breaks: 1 + 3.
    let one = GenericCharacterStats::from_social(6, 1, 1, 1, 1);
    assert_eq!(one.count_limit_breaks(), 1);
    assert_eq!(one.calculate_invested_stat_points(), 5 + 2);
    let two = GenericCharacterStats::from_social(6, 6, 1, 1, 1);
    assert_eq!(two.count_limit_breaks(), 2);
    assert_eq!(two.calculate_invested_stat_points(), 10 + 4);
    let three = GenericCharacterStats::from_social(7, 6, 1, 1, 1);
    assert_eq!(three.calculate_invested_stat_points(), 11 + 7);
}

fn record() -> CharacterSheetRecord {
    let p = pikachu();
    CharacterSheetRecord {
        id: 42,
        name: "Pikatest".to_string(),
        rank_emoji: "<:badge_gold:1>".to_string(),
        species_emoji: None,
        species_name: "Pikachu".to_string(),
        is_retired: false,
        level: 5,
        experience: 42,
        money: 1337,
        battle_points: 0,
        type1_emoji: "<:type_electric:2>".to_string(),
        type2_emoji: None,
        species_override_name: None,
        combat_stats: GenericCharacterStats::from_combat(&p, 2, 2, 1, 2, 2),
        social_stats: GenericCharacterStats::from_social(1, 1, 1, 1, 1),
        ability_list: "- Static\n".to_string(),
        tera_charges: vec![
            TeraCharge { pokemon_type: PokemonTypeWithoutShadow::Bug, unlocked: 0, used: 0 },
            TeraCharge { pokemon_type: PokemonTypeWithoutShadow::Electric, unlocked: 2, used: 1 },
        ],
        backpack_upgrade_count: 0,
        completed_quest_count: 4,
        total_spar_count: 3,
        total_new_player_tour_count: 0,
        total_new_player_combat_tutorial_count: 0,
        available_combat_points: 9,
        available_social_points: 8,
    }
}

#[test]
fn character_sheet_message_and_points() {
    let sheet = build_character_sheet(&record());
    let expected = "## <:badge_gold:1> Pikatest [Pikachu] \n**Level 5** `(42 / 100)`\n1337 <:poke_coin:1120237132200546304> \n### Stats <:type_electric:2>\n```\nHP: 8\nWillpower: 4\n\nStrength:  2 |⬤⬤⭘⭘\nDexterity: 2 |⬤⬤⭘⭘⭘\nVitality:  1 |⬤⭘⭘\nSpecial:   2 |⬤⬤⭘⭘\nInsight:   2 |⬤⬤⭘⭘\n\nDefense: 1\nSpecial Defense: 1\n\nTough:  1 |⬤⭘⭘⭘⭘\nCool:   1 |⬤⭘⭘⭘⭘\nBeauty: 1 |⬤⭘⭘⭘⭘\nCute:   1 |⬤⭘⭘⭘⭘\nClever: 1 |⬤⭘⭘⭘⭘\n\n```\n### Abilities \n- Static\n### Terastallization Charges\n- `1/2` Electric\n### Statistics\n🎒 Backpack Slots: 6\n\n🏆 Completed Quests: 4\n🤺 Total Sparring Sessions: 3\n";
    assert_eq!(sheet.message, expected);
    assert_eq!(sheet.remaining_combat_points, 9);
    assert_eq!(sheet.remaining_social_points, 8);
}

#[test]
fn buttons_only_for_points_left() {
    let b = stat_point_buttons(42, 9, 0);
    assert_eq!(b.len(), 1);
    assert_eq!(b[0].custom_id, "ce_initialize_combat_42");
    assert_eq!(b[0].label, "9 Remaining Stat Points");
    let b = stat_point_buttons(42, 0, 8);
    assert_eq!(b[0].custom_id, "ce_initialize_social_42");
    assert_eq!(b[0].label, "8 Remaining Social Points");
    assert!(stat_point_buttons(42, -1, 0).is_empty());
    assert!(stat_point_buttons(42, 3, -5).is_empty());
    assert_eq!(stat_point_buttons(42, 5, -2).len(), 1);
}
