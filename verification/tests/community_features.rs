use pokerole_discord_bot::autocompletion::filter_and_sort;
use pokerole_discord_bot::cache::CharacterCacheItem;
use pokerole_discord_bot::game::{Gender, MysteryDungeonRank, Pokemon, PokemonStat, PokemonType, PokemonTypeWithoutShadow};
use pokerole_discord_bot::initialization::{plan_new_character, DEFAULT_STARTING_MONEY};
use pokerole_discord_bot::player_info::{build_player_info, PlayerCharacter};
use pokerole_discord_bot::pokedex::{
    append_all_learnable_moves, append_moves, filter_moves, print_stat, PokeLearn, PokeLearnEntry,
    PokeRoleRank, PokemonLearnableMoves,
};
use pokerole_discord_bot::poll::build_poll;
use pokerole_discord_bot::quests::{
    character_quests_message, check_quest_stored, parse_quest_filter, quest_completed_message,
    quest_creation_error_text, unfinished_quests_message, QuestFilter, QUEST_EXISTS,
};
use pokerole_discord_bot::rewards::{combat_tutorial_reply, spar_summary, track_spar};
use pokerole_discord_bot::role_reactions::{
    build_role_reaction_post, may_create_role_reaction_post, role_post_reply, RoleChoice, RoleReaction,
    ROLE_POST_AUTHOR_ID,
};
use pokerole_discord_bot::roster::{reset_stats_for, retirement_message, stats_reset_log_message, stats_reset_reply};
use pokerole_discord_bot::season::{get_current_season, season_for_weeks, season_message};
use pokerole_discord_bot::trades::{
    after_change, next_change, start_transfer, tera_reward_message, tera_used_column, transfer_done_message,
    use_tera_charge, validate_transfer, TransferStage,
};
use pokerole_discord_bot::wallets::{parse_user_input_to_wallet, wallet_access, WalletRow, NOT_WALLET_OWNER};

fn stat(min: u8, max: u8) -> PokemonStat {
    PokemonStat { min, max }
}

fn eevee() -> Pokemon {
    Pokemon {
        name: "Eevee".to_string(),
        poke_api_id: 133,
        generation: 1,
        has_gender_differences: false,
        regional_variant: None,
        type1: PokemonType::Normal,
        type2: None,
        base_hp: 4,
        strength: stat(2, 4),
        dexterity: stat(2, 4),
        vitality: stat(2, 4),
        special: stat(1, 3),
        insight: stat(2, 4),
        ability1: "Run Away".to_string(),
        ability2: None,
        hidden_ability: None,
        moves_by_rank: Vec::new(),
    }
}

fn names(v: &[&str]) -> Vec<String> {
    v.iter().map(|s| s.to_string()).collect()
}

#[test]
fn autocompletion_puts_prefix_matches_first_in_order() {
    let commands = names(&["Thunder", "Bolt Strike", "thunderbolt", "Volt Tackle", "Boltbeam"]);
    assert_eq!(filter_and_sort("bo", &commands, 2), names(&["Bolt Strike", "Boltbeam", "thunderbolt"]));
    assert_eq!(filter_and_sort("b", &commands, 2), Vec::<String>::new());
    assert_eq!(filter_and_sort("OLT", &commands, 2), names(&["Bolt Strike", "thunderbolt", "Volt Tackle", "Boltbeam"]));
    assert_eq!(filter_and_sort("", &commands, 0).len(), 5);
}

#[test]
fn new_characters_get_defaults() {
    let c = plan_new_character("Eve", &eevee(), None, Gender::Female, None, None, &eevee()).ok().unwrap();
    assert_eq!((c.experience, c.money, c.phenotype, c.is_shiny), (0, DEFAULT_STARTING_MONEY, 1, false));
    assert_eq!((c.stat_strength, c.stat_special), (2, 1));
    assert_eq!(c.log_message, "Initialized character Eve (Eevee) with 500 <:poke_coin:1120237132200546304> and 0 exp.");
    assert_eq!(
        plan_new_character("Eve!", &eevee(), None, Gender::Male, Some(5), Some(1), &eevee()).err(),
        Some("Failed to validate input string!")
    );
}

#[test]
fn player_overview() {
    let cs = vec![PlayerCharacter {
        emoji: "<:e:1> ".to_string(),
        name: "Eve".to_string(),
        stat_channel_id: 55,
        level: 7,
        current_experience: 30,
        experience: 630,
    }];
    let text = build_player_info("Lilo", Some("today"), &cs, Some(2), None);
    assert_eq!(
        text,
        "## Lilo\n**Joined at**: today\n**Total Character Level**: 7 \n**Total Experience**: 630\n**Character Slots**: 1/2\n**Hosted Quests:** 2\n### <:e:1> Eve – <#55>\n        Level: 7 (30 exp)\n"
    );
    let none = build_player_info("Lilo", None, &Vec::new(), None, Some(3));
    assert_eq!(none, "## Lilo\n**Joined at**: Unknown\n**Total Character Level**: 0 \n**Total Experience**: 0\n**Character Slots**: 0/1\n**GM Experience**: 3\n");
}

#[test]
fn pokedex_sections() {
    let mut s = String::new();
    print_stat(&mut s, "Strength", 2, 4);
    assert_eq!(s, "**Strength**: ⬤⬤⭘⭘ `2/4`\n");
    let mut s = String::new();
    append_moves(&mut s, "**Bronze**\n", Vec::new());
    assert_eq!(s, "");
    append_moves(&mut s, "**Bronze**\n", names(&["Tackle", "Growl"]));
    assert_eq!(s, "**Bronze**\nTackle  |  Growl\n");
    let learns = PokeLearn {
        pokemon_name: "Eevee".to_string(),
        moves: vec![
            PokeLearnEntry { poke_move: "Tackle".to_string(), rank: PokeRoleRank::Starter },
            PokeLearnEntry { poke_move: "Bite".to_string(), rank: PokeRoleRank::Amateur },
        ],
    };
    let mut s = String::new();
    filter_moves(&mut s, "**Silver**\n", &learns, |x: &PokeLearnEntry| x.rank == PokeRoleRank::Amateur);
    assert_eq!(s, "**Silver**\nBite\n");
    let all = PokemonLearnableMoves {
        pokemon_name: "Eevee".to_string(),
        machine: names(&["Swift"]),
        egg: names(&["Wish", "Bite"]),
        tutor: Vec::new(),
        level_up: names(&["Tackle", "Tail Whip", "Bite", "Baby-Doll Eyes"]),
    };
    let mut s = String::new();
    append_all_learnable_moves(&learns, &mut s, &all);
    assert_eq!(
        s,
        "\n**TM Moves**\nSwift\n\n**Egg Moves**\nWish  |  Bite\n\n**Learned in Game through level up, but not here**\nTail Whip  |  Baby-Doll Eyes\n"
    );
}

#[test]
fn polls_number_their_options() {
    let p = build_poll("Lunch?\\nPick one", &vec![Some("Pizza".to_string()), Some("Pasta".to_string()), None, Some("Salad".to_string())]);
    assert_eq!(p.text, "**Lunch?\nPick one**\n1️⃣   Pizza\n2️⃣   Pasta\n4️⃣   Salad\n");
    assert_eq!(p.reactions, names(&["1️⃣", "2️⃣", "4️⃣"]));
}

#[test]
fn quests() {
    assert_eq!(quest_creation_error_text("UNIQUE constraint failed: quest.channel_id"), QUEST_EXISTS);
    assert_eq!(quest_creation_error_text("disk full"), "disk full");
    assert!(check_quest_stored(Ok(1)).is_ok());
    assert_eq!(check_quest_stored(Ok(0)).err(), Some("Unable to persist quest entry!".to_string()));
    assert_eq!(check_quest_stored(Err("boom")).err(), Some("**Something went wrong!**\nboom".to_string()));
    assert_eq!(parse_quest_filter(Some("Accepted")), QuestFilter::Accepted);
    assert_eq!(parse_quest_filter(Some("Accepted and not completed")), QuestFilter::AcceptedAndNotCompleted);
    assert_eq!(parse_quest_filter(Some("other")), QuestFilter::SignedUp);
    assert_eq!(character_quests_message("Eve", &vec![]), "Character 'Eve' is not part of any quests.");
    assert_eq!(character_quests_message("Eve", &vec![5, 6]), "Accepted quests for character 'Eve':\n<#5>\n<#6>\n");
    assert_eq!(unfinished_quests_message(&vec![5]), "**Unfinished quests (1):**\n<#5>\n");
    assert_eq!(quest_completed_message("A, B"), "A, B completed a quest!");
}

fn character(id: i64, name: &str, user_id: u64) -> CharacterCacheItem {
    CharacterCacheItem::new(id, name.to_string(), user_id, 1, false, "n".to_string())
}

#[test]
fn sparring_and_tutorials() {
    let t = track_spar(2, 1, 3);
    assert_eq!((t.new_total_spar_count, t.new_weekly_spar_count, t.gains_experience), (3, 2, true));
    assert!(track_spar(3, 0, 3).gains_experience);
    assert!(!track_spar(0, 3, 3).gains_experience);
    assert!(track_spar(10, 2, 3).gains_experience);
    let a = character(1, "A", 1);
    let b = character(2, "B", 1);
    let all = vec![a.duplicate(), b.duplicate()];
    assert_eq!(
        spar_summary(&all, &[], 50),
        "Tracked a sparring session for A, B.\n*Everyone's already reached the weekly limit for sparring exp rewards.*"
    );
    assert_eq!(
        spar_summary(&all, &all[..1], 50),
        "Tracked a sparring session for A, B.\nA received 50 experience points. *(Everyone who did not receive any already reached the weekly limit)*"
    );
    assert_eq!(spar_summary(&all, &all, 50), "Tracked a sparring session for A, B.\nA, B received 50 experience points!");
    assert_eq!(
        combat_tutorial_reply("A", 30),
        "Tracked that A gave a combat tutorial. They gained 30 experience points as a reward!"
    );
}

#[test]
fn role_reaction_posts() {
    assert!(may_create_role_reaction_post(ROLE_POST_AUTHOR_ID));
    assert!(!may_create_role_reaction_post(1));
    let first = RoleReaction { emoji: "🔥".to_string(), role: RoleChoice { id: 11, name: "Fire".to_string() } };
    let second = RoleReaction { emoji: "💧".to_string(), role: RoleChoice { id: 12, name: "Water".to_string() } };
    let optional = vec![(None, None), (Some("🌿".to_string()), Some(RoleChoice { id: 13, name: "Grass".to_string() }))];
    let post = build_role_reaction_post("Pick a type", &first, &second, &optional);
    assert_eq!(post.reaction_message, "**Pick a type**\n🔥 Fire\n💧 Water\n🌿 Grass\n");
    assert_eq!(post.command_response, "🔥`11` `@Fire`\n💧`12` `@Water`\n🌿`13` `@Grass`\n");
    assert_eq!(post.reactions, names(&["🔥", "💧", "🌿"]));
    assert_eq!(role_post_reply(99, "x"), "Message created.\nMessageId: `99`\nx");
}

#[test]
fn resets_and_retirements() {
    let r = reset_stats_for(&eevee());
    assert_eq!((r.strength, r.special, r.social), (2, 1, 1));
    assert_eq!(stats_reset_reply("Eve"), "Eve's stats have been reset.");
    assert_eq!(stats_reset_log_message("Eve"), "Reset Eve's stats");
    assert_eq!(retirement_message("Eve"), "Eve has been retired.");
}

#[test]
fn seasons_turn_weekly() {
    assert_eq!(season_for_weeks(0), "Spring");
    assert_eq!(season_for_weeks(5), "Summer");
    assert_eq!(season_for_weeks(-1), "Winter");
    assert_eq!(season_for_weeks(-6), "Autumn");
    assert_eq!(season_for_weeks(3), "Winter");
    assert_eq!(season_for_weeks(4), "Spring");
    assert_eq!(season_for_weeks(103), season_for_weeks(107));
    assert!(["Spring", "Summer", "Autumn", "Winter"].contains(&get_current_season()));
    assert_eq!(season_message("Spring"), "🌱 [System] The current season is: **Spring**!");
}

#[test]
fn terastallization_charges() {
    assert_eq!(tera_used_column(PokemonTypeWithoutShadow::GhostType), "tera_used_ghost");
    let (used, msg) = use_tera_charge("Eve", PokemonTypeWithoutShadow::Fire, 2, 1).ok().unwrap();
    assert_eq!(used, 2);
    assert_eq!(msg, "Eve used a Fire Terastallization!");
    assert_eq!(
        use_tera_charge("Eve", PokemonTypeWithoutShadow::Fire, 2, 2).err().unwrap().message,
        "Eve doesn't seem to have any Fire Terastallization charges left!"
    );
    assert_eq!(tera_reward_message(PokemonTypeWithoutShadow::Ice, "A, B"), "Unlocked a Ice Terastallization Charge for A, B!");
}

#[test]
fn money_transfers() {
    let a = character(1, "A", 7);
    let b = character(2, "B", 8);
    assert!(validate_transfer(7, &a, &b, 5).is_ok());
    assert_eq!(validate_transfer(8, &a, &b, 5).err().unwrap().message, "You don't seem to own a character named A on this server.");
    assert_eq!(
        validate_transfer(7, &a, &a, 5).err().unwrap().message,
        "*You successfully transferred 5 <:poke_coin:1120237132200546304> from your left to your right hand. Ha. Ha.*"
    );
    let t = start_transfer(5);
    assert_eq!(next_change(&t), Some((true, -5)));
    let t = after_change(&t, true);
    assert_eq!(next_change(&t), Some((false, 5)));
    let failed = after_change(&t, false);
    assert_eq!(failed.stage, TransferStage::Refunding);
    assert_eq!(next_change(&failed), Some((true, 5)));
    let refunded = after_change(&failed, true);
    assert_eq!((refunded.stage, refunded.giver_delta, refunded.receiver_delta), (TransferStage::Refunded, 0, 0));
    let done = after_change(&t, true);
    assert_eq!((done.stage, done.giver_delta, done.receiver_delta), (TransferStage::Completed, -5, 5));
    assert_eq!(next_change(&done), None);
    assert_eq!(transfer_done_message("A", 5, "B"), "***A** gave 5 <:poke_coin:1120237132200546304> to **B***!");
}

#[test]
fn wallets() {
    let rows = vec![WalletRow { id: 1, name: "Guild Bank".to_string() }, WalletRow { id: 2, name: "Shop".to_string() }];
    let w = parse_user_input_to_wallet(&rows, 4, "guild bank").unwrap();
    assert_eq!((w.id, w.name.as_str(), w.guild_id), (1, "Guild Bank", 4));
    assert!(parse_user_input_to_wallet(&rows, 4, "Vault").is_none());
    assert!(wallet_access(true, Err(sqlx::Error::RowNotFound)).is_ok());
    assert!(wallet_access(false, Ok(2)).is_ok());
    assert_eq!(wallet_access(false, Ok(0)).err().unwrap().message, NOT_WALLET_OWNER);
}

#[test]
fn a_second_quest_in_a_channel_is_refused() {
    assert!(check_quest_stored(Ok(1)).is_ok());
    let second = check_quest_stored(Err("UNIQUE constraint failed: quest.channel_id")).err().unwrap();
    assert_eq!(second, "**Something went wrong!**\nUNIQUE constraint failed: quest.channel_id");
    assert_eq!(quest_creation_error_text(&second), QUEST_EXISTS);
}
