use pokerole_discord_bot::cache::CharacterCacheItem;
use pokerole_discord_bot::characters::{
    append_tera_charges, build_action_log_line, build_character_list, build_stat_change_message,
    build_tera_charges, changed_value, level_from_experience, level_up_announcement, level_up_message, pin_error_message, pin_reply,
    stat_column_label_text, tera_types_in_sheet_order, validate_user_input, ActionType,
    EntityWithNameAndNumericValue, TeraCharge, DEFAULT_BACKPACK_SLOTS, QUERY_INVALID, QUERY_TOO_LONG,
};
use pokerole_discord_bot::game::{MysteryDungeonRank, PokemonTypeWithoutShadow};

#[test]
fn action_labels() {
    assert_eq!(ActionType::Initialization.label(), "🌟 [Init]");
    assert_eq!(ActionType::WalletPayment.label(), "👛⬅️ [Payment]");
    assert_eq!(ActionType::CharacterStatReset.label(), "📝 [Edit]");
    assert_eq!(ActionType::TerastallizationUnlock.label(), "💎 [Terastallization Unlock]");
}

#[test]
fn tera_charges_only_when_unlocked() {
    let mut s = String::new();
    append_tera_charges(&mut s, PokemonTypeWithoutShadow::Fire, 0, 0);
    assert_eq!(s, "");
    append_tera_charges(&mut s, PokemonTypeWithoutShadow::Fire, 3, 1);
    assert_eq!(s, "- `2/3` Fire\n");
    append_tera_charges(&mut s, PokemonTypeWithoutShadow::GhostType, 1, 1);
    assert_eq!(s, "- `2/3` Fire\n- `0/1` Ghost\n");
}

#[test]
fn tera_section_has_a_heading_only_when_needed() {
    assert_eq!(build_tera_charges(&vec![TeraCharge { pokemon_type: PokemonTypeWithoutShadow::Ice, unlocked: 0, used: 0 }]), "");
    assert_eq!(
        build_tera_charges(&vec![TeraCharge { pokemon_type: PokemonTypeWithoutShadow::Ice, unlocked: 1, used: 0 }]),
        "### Terastallization Charges\n- `1/1` Ice\n"
    );
    let order = tera_types_in_sheet_order();
    assert_eq!(order.len(), 18);
    assert_eq!(order[0], PokemonTypeWithoutShadow::Bug);
    assert_eq!(order[17], PokemonTypeWithoutShadow::Water);
}

#[test]
fn character_lists_join_names() {
    let cs = vec![
        CharacterCacheItem::new(1, "A".to_string(), 1, 1, false, "x".to_string()),
        CharacterCacheItem::new(2, "B".to_string(), 1, 1, false, "y".to_string()),
    ];
    assert_eq!(build_character_list(&cs), "A, B");
    assert_eq!(build_character_list(&cs[..1]), "A");
    assert_eq!(build_character_list(&[]), "");
}

#[test]
fn user_input_validation() {
    assert_eq!(validate_user_input("Pika Chu's"), Ok(()));
    assert_eq!(validate_user_input("Pika!"), Err(QUERY_INVALID));
    assert_eq!(validate_user_input(&"a".repeat(31)), Err(QUERY_TOO_LONG));
    assert_eq!(validate_user_input(&"a".repeat(30)), Ok(()));
    assert_eq!(validate_user_input(""), Ok(()));
    assert_eq!(validate_user_input("Flabébé_2"), Ok(()));
    assert_eq!(validate_user_input("a-b"), Err(QUERY_INVALID));
    assert_eq!(validate_user_input("line\nbreak"), Err(QUERY_INVALID));
}

#[test]
fn stat_change_messages() {
    assert_eq!(stat_column_label_text("money"), "<:poke_coin:1120237132200546304>");
    assert_eq!(stat_column_label_text("tera_unlocked_ghost"), "Ghost");
    assert_eq!(stat_column_label_text("experience"), "experience");
    assert_eq!(build_stat_change_message(50, "experience", "Pika"), "Added 50 experience to Pika");
    assert_eq!(
        build_stat_change_message(-20, "money", "Pika"),
        "Removed 20 <:poke_coin:1120237132200546304> from Pika"
    );
    assert_eq!(build_stat_change_message(0, "experience", "Pika"), "Removed 0 experience from Pika");
    assert_eq!(changed_value(10, -3), 7);
}

#[test]
fn action_log_lines() {
    assert_eq!(
        build_action_log_line(&ActionType::Reward, "Added 5 experience to Pika", "<@1>", None),
        "✨ [Reward] Added 5 experience to Pika (triggered by <@1>)"
    );
    assert_eq!(
        build_action_log_line(&ActionType::Spar, "x", "<@1>", Some("link")),
        "🤺 [Spar] x (triggered by <@1> in link)"
    );
}

#[test]
fn level_up_announcements() {
    assert_eq!(
        level_up_message("Pika", 4, &MysteryDungeonRank::Bronze, &MysteryDungeonRank::Bronze),
        "### 🎉 Level Up! 🥳\n**Pika** just reached level 4!"
    );
    assert_eq!(
        level_up_message("Pika", 5, &MysteryDungeonRank::Bronze, &MysteryDungeonRank::Silver),
        "### 🎉 Level Up! 🥳\n**Pika** just reached level 5! They are now Silver!"
    );
}

#[test]
fn pins() {
    assert_eq!(pin_reply(true), "Message has been unpinned!");
    assert_eq!(pin_reply(false), "Message has been pinned!");
    assert_eq!(pin_error_message(false, "E"), "Failed to pin message.\n```E```");
}

#[test]
fn rows_and_constants() {
    let row = EntityWithNameAndNumericValue { id: 1, name: "Pika".to_string(), value: 3 };
    assert_eq!(row.value, 3);
    assert_eq!(DEFAULT_BACKPACK_SLOTS, 6);
}

#[test]
fn level_ups_are_announced_only_for_gained_experience() {
    let gold = MysteryDungeonRank::Gold;
    let platinum = MysteryDungeonRank::Platinum;
    assert_eq!(
        level_up_announcement("experience", 150, "Eve", 7, 8, &gold, &platinum),
        Some(level_up_message("Eve", 8, &gold, &platinum))
    );
    assert_eq!(level_up_announcement("experience", 50, "Eve", 7, 7, &gold, &gold), None);
    assert_eq!(level_up_announcement("money", 500, "Eve", 7, 8, &gold, &platinum), None);
    assert_eq!(level_up_announcement("experience", -100, "Eve", 8, 7, &platinum, &gold), None);
}

#[test]
fn levels_count_one_hundred_experience_each() {
    assert_eq!(level_from_experience(0), 1);
    assert_eq!(level_from_experience(99), 1);
    assert_eq!(level_from_experience(100), 2);
    assert_eq!(level_from_experience(250), 3);
    assert_eq!(level_from_experience(-1), 0);
}
