use pokerole_discord_bot::cache::{Cache, CharacterCacheItem, CharacterRow};
use pokerole_discord_bot::commands::find_character;
use pokerole_discord_bot::wallets::{find_wallet, wallet_not_found, WalletRow};
use pokerole_discord_bot::emoji_registry::{emoji_name_traits, local_emoji_path, missing_emoji_strings, prune_report};
use pokerole_discord_bot::game::{Gender, MysteryDungeonRank, Pokemon, PokemonStat, PokemonType, RankedMove};
use pokerole_discord_bot::list_characters::build_roster_line;
use pokerole_discord_bot::season::{season_at, season_for_weeks, weeks_since_season_epoch, SEASON_EPOCH};

fn strings(v: &[&str]) -> Vec<String> {
    v.iter().map(|s| s.to_string()).collect()
}

#[test]
fn deleted_emojis_are_found_and_reported() {
    let stored = strings(&["<:a:1>", "<:b:2>", "<:c:3>"]);
    let existing = strings(&["<:b:2>"]);
    let missing = missing_emoji_strings(&stored, &existing);
    assert_eq!(missing, strings(&["<:a:1>", "<:c:3>"]));
    assert_eq!(prune_report(&missing), "Removed 2 emojis.\n```<:a:1>\n<:c:3>```");
    assert_eq!(prune_report(&Vec::new()), "Didn't find any deleted emojis!");
}

#[test]
fn emoji_names_tell_gender_and_shininess() {
    assert_eq!(emoji_name_traits("shiny_pikachu_female"), (Gender::Female, true));
    assert_eq!(emoji_name_traits("pikachu"), (Gender::Male, false));
}

#[test]
fn sprite_paths() {
    let p = Pokemon {
        name: "Pikachu".to_string(),
        poke_api_id: 25,
        generation: 1,
        has_gender_differences: true,
        regional_variant: None,
        type1: PokemonType::Electric,
        type2: None,
        base_hp: 3,
        strength: PokemonStat { min: 2, max: 4 },
        dexterity: PokemonStat { min: 2, max: 5 },
        vitality: PokemonStat { min: 1, max: 3 },
        special: PokemonStat { min: 2, max: 4 },
        insight: PokemonStat { min: 2, max: 4 },
        ability1: "Static".to_string(),
        ability2: None,
        hidden_ability: None,
        moves_by_rank: vec![RankedMove { name: "Growl".to_string(), rank: MysteryDungeonRank::Bronze }],
    };
    assert_eq!(local_emoji_path("/sprites", &p, true, true, false), "/sprites/sprites/pokemon/shiny/female/25.png");
    assert_eq!(
        local_emoji_path("/s", &p, false, false, true),
        "/sversions/generation-v/black-white/animated//sprites/pokemon/25.png"
    );
}

#[test]
fn roster_lines_fall_back_to_a_question_mark() {
    assert_eq!(build_roster_line("<:p:1> ", "Pika", 55), "<:p:1>  Pika – <#55>\n");
    assert_eq!(build_roster_line("  ", "Pika", 55), "❓  Pika – <#55>\n");
}

#[test]
fn cache_lookups() {
    let mut cache = Cache::new();
    cache.update_character_names(&vec![
        CharacterRow { id: 1, character_name: "Pika".to_string(), user_id: 7, guild_id: 3, is_retired: false, user_name: Some("Lilo".to_string()) },
        CharacterRow { id: 2, character_name: "Eve".to_string(), user_id: 8, guild_id: 3, is_retired: true, user_name: None },
    ]);
    assert_eq!(cache.get_characters().len(), 2);
    let c = cache.get_character(2).unwrap();
    assert_eq!(c.get_autocomplete_name(), "Eve (@)");
    assert!(c.is_retired);
    assert!(cache.get_character(5).is_none());
}

#[test]
fn weeks_count_from_the_epoch() {
    assert_eq!(weeks_since_season_epoch(SEASON_EPOCH), 0);
    assert_eq!(weeks_since_season_epoch(SEASON_EPOCH + 604799), 0);
    assert_eq!(weeks_since_season_epoch(SEASON_EPOCH + 604800), 1);
    assert_eq!(weeks_since_season_epoch(SEASON_EPOCH - 604800), -1);
    assert_eq!(weeks_since_season_epoch(SEASON_EPOCH - 1), 0);
    assert_eq!(season_for_weeks(weeks_since_season_epoch(SEASON_EPOCH + 3 * 604800)), "Winter");
}

#[test]
fn finding_wallets_and_characters_by_name() {
    let rows = vec![
        WalletRow { id: 1, name: "Guild Fund".to_string() },
        WalletRow { id: 2, name: "Shop".to_string() },
        WalletRow { id: 3, name: "shop".to_string() },
    ];
    let w = find_wallet(&rows, 9, "guild fund").ok().unwrap();
    assert_eq!((w.id, w.name.as_str(), w.guild_id), (1, "Guild Fund", 9));
    assert_eq!(find_wallet(&rows, 9, "Shop").err().unwrap().message, "Unable to find a wallet named Shop");
    assert_eq!(find_wallet(&rows, 9, "Bank").err().unwrap().message, "Unable to find a wallet named Bank");
    assert_eq!(wallet_not_found("X").message, "Unable to find a wallet named X");

    let characters = vec![CharacterCacheItem::new(5, "Eve".to_string(), 1, 9, false, "eve_player".to_string())];
    assert_eq!(find_character(&characters, 9, "eve").ok().unwrap().id, 5);
    assert_eq!(find_character(&characters, 8, "Eve").err().unwrap().message, "Unable to find a character named Eve");
}

#[test]
fn seasons_at_given_times() {
    assert_eq!(season_at(SEASON_EPOCH), "Spring");
    assert_eq!(season_at(SEASON_EPOCH + 604800 - 1), "Spring");
    assert_eq!(season_at(SEASON_EPOCH + 604800), "Summer");
    assert_eq!(season_at(SEASON_EPOCH + 3 * 604800 + 5), "Winter");
    assert_eq!(season_at(SEASON_EPOCH + 4 * 604800), "Spring");
    // Before the epoch weeks count toward zero: the week just before is still week 0.
    assert_eq!(season_at(SEASON_EPOCH - 1), "Spring");
    assert_eq!(season_at(SEASON_EPOCH - 604800), "Winter");
}

#[test]
fn roster_lines_treat_only_unicode_whitespace_as_blank() {
    assert_eq!(build_roster_line("\u{3000}\t\n", "Pika", 1), "❓  Pika – <#1>\n");
    assert_eq!(build_roster_line(" x ", "Pika", 1), " x  Pika – <#1>\n");
}
