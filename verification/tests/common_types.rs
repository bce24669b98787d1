use pokerole_discord_bot::autocompletion::{
    autocomplete_ability, autocomplete_character_name, autocomplete_item, autocomplete_move, autocomplete_nature,
    autocomplete_owned_character_name, autocomplete_owned_shop_name, autocomplete_pokemon, autocomplete_potion,
    autocomplete_rule, autocomplete_shop_name, autocomplete_status_effect, autocomplete_weather,
    character_name_candidates, complete_lowered,
};
use pokerole_discord_bot::cache::{CharacterCacheItem, WalletCacheItem};
use pokerole_discord_bot::commands::{
    add_if_some, ensure_money_record_has_money, ensure_user_owns_character, is_user_admin_or_gm,
    find_character_lowered, parse_character_names, parse_user_input_to_character, parse_variadic_args, MoneyRecord,
    GM_ROLE_ID,
};
use pokerole_discord_bot::errors::ParseError;

fn item(id: i64, name: &str, user_id: u64, guild_id: u64, nickname: &str) -> CharacterCacheItem {
    CharacterCacheItem::new(id, name.to_string(), user_id, guild_id, false, nickname.to_string())
}

#[test]
fn autocomplete_name_appends_the_owner() {
    let c = item(1, "Pikatest", 7, 3, "Lilo");
    assert_eq!(c.get_autocomplete_name(), "Pikatest (@Lilo)");
    assert_eq!(c.id, 1);
    assert_eq!(c.user_id, 7);
    assert_eq!(c.guild_id, 3);
}

#[test]
fn wallet_cache_item_holds_its_values() {
    let w = WalletCacheItem { id: 4, name: "Guild Bank".to_string(), guild_id: 9 };
    assert_eq!(w.id, 4);
    assert_eq!(w.name, "Guild Bank");
}

#[test]
fn variadic_args_keep_given_ones_in_order() {
    let v = parse_variadic_args(1, None, Some(3), None, Some(5), None, None, None, Some(9));
    assert_eq!(v, vec![1, 3, 5, 9]);
    let mut w = vec![1];
    add_if_some(&mut w, None);
    add_if_some(&mut w, Some(2));
    assert_eq!(w, vec![1, 2]);
}

#[test]
fn characters_are_found_by_autocomplete_name_or_unique_name() {
    let cs = vec![item(1, "Pika", 7, 3, "A"), item(2, "Eevee", 8, 3, "B"), item(3, "Eevee", 9, 3, "C")];
    assert_eq!(parse_user_input_to_character(&cs, 3, "Pika (@A)").map(|c| c.id), Some(1));
    assert_eq!(parse_user_input_to_character(&cs, 3, "pIKa").map(|c| c.id), Some(1));
    assert_eq!(parse_user_input_to_character(&cs, 3, "Eevee").map(|c| c.id), None);
    assert_eq!(parse_user_input_to_character(&cs, 3, "Eevee (@C)").map(|c| c.id), Some(3));
    assert_eq!(parse_user_input_to_character(&cs, 4, "Pika").map(|c| c.id), None);
}

#[test]
fn character_names_report_missing_and_duplicate_characters() {
    let cs = vec![item(1, "Pika", 7, 3, "A"), item(2, "Eevee", 8, 3, "B")];
    let ok = parse_character_names(&cs, 3, &vec!["Pika".to_string(), "Eevee".to_string()]).unwrap();
    assert_eq!(ok.iter().map(|c| c.id).collect::<Vec<_>>(), vec![1, 2]);
    assert_eq!(
        parse_character_names(&cs, 3, &vec!["Pika".to_string(), "Mew".to_string()]).err(),
        Some("Unable to find a character named Mew".to_string())
    );
    assert_eq!(
        parse_character_names(&cs, 3, &vec!["Pika".to_string(), "pika".to_string()]).err(),
        Some("Duplicate character: Pika (@A)".to_string())
    );
}

#[test]
fn money_checks_name_the_shortfall() {
    assert!(ensure_money_record_has_money("Pika", 100, "give", Ok(MoneyRecord { money: 100 })).is_ok());
    let e = ensure_money_record_has_money("Pika", 150, "give", Ok(MoneyRecord { money: 100 })).unwrap_err();
    assert_eq!(
        e.message,
        "**Unable to give 150 <:poke_coin:1120237132200546304>.**\n*Pika only owns 100 <:poke_coin:1120237132200546304>.*"
    );
    let e = ensure_money_record_has_money("Pika", 1, "give", Err(sqlx::Error::RowNotFound)).unwrap_err();
    assert_eq!(
        e.message,
        "**Something went wrong when checking how much money Pika has. Please try again. Let me know if this ever happens.**"
    );
}

#[test]
fn ownership_and_staff_roles() {
    let c = item(1, "Pika", 7, 3, "A");
    assert!(ensure_user_owns_character(7, &c).is_ok());
    assert_eq!(
        ensure_user_owns_character(8, &c).unwrap_err().message,
        "You don't seem to own a character named Pika on this server."
    );
    assert!(is_user_admin_or_gm(&vec![5, GM_ROLE_ID]));
    assert!(!is_user_admin_or_gm(&vec![5, 6]));
}

#[test]
fn parse_errors_carry_their_text() {
    assert_eq!(ParseError::new("oops").message, "oops");
}

#[test]
fn autocompletion_of_game_names_and_characters() {
    let names: Vec<String> = vec!["Thunder".to_string(), "Bolt Strike".to_string(), "Thunderbolt".to_string(), "Tackle".to_string()];
    assert_eq!(autocomplete_move(&names, "th"), vec!["Thunder".to_string(), "Thunderbolt".to_string()]);
    assert_eq!(autocomplete_move(&names, "t"), Vec::<String>::new());
    assert_eq!(autocomplete_pokemon(&names, "BOLT"), vec!["Bolt Strike".to_string(), "Thunderbolt".to_string()]);
    assert_eq!(autocomplete_weather(&names, ""), vec!["Bolt Strike".to_string(), "Tackle".to_string(), "Thunder".to_string(), "Thunderbolt".to_string()]);
    assert_eq!(autocomplete_ability(&names, "ck"), vec!["Tackle".to_string()]);
    assert_eq!(autocomplete_item(&names, "zz"), Vec::<String>::new());
    assert_eq!(autocomplete_status_effect(&names, "strike"), vec!["Bolt Strike".to_string()]);
    assert_eq!(autocomplete_rule(&names, "e"), vec!["Thunder".to_string(), "Bolt Strike".to_string(), "Thunderbolt".to_string(), "Tackle".to_string()]);
    assert_eq!(autocomplete_nature(&names, "T"), vec!["Tackle".to_string(), "Thunder".to_string(), "Thunderbolt".to_string(), "Bolt Strike".to_string()]);
    assert_eq!(autocomplete_potion(&names, "tack"), vec!["Tackle".to_string()]);
    assert_eq!(autocomplete_shop_name(&names, "bolt"), autocomplete_owned_shop_name(&names, "bolt"));

    let characters = vec![
        item(1, "Eve", 10, 7, "anna"),
        item(2, "Evan", 11, 7, "ben"),
        item(3, "Steve", 10, 8, "anna"),
    ];
    assert_eq!(
        character_name_candidates(&characters, 7, None),
        vec![characters[0].get_autocomplete_name().clone(), characters[1].get_autocomplete_name().clone()]
    );
    assert_eq!(character_name_candidates(&characters, 7, Some(11)), vec![characters[1].get_autocomplete_name().clone()]);
    assert_eq!(autocomplete_character_name(&characters, 7, "ev").len(), 2);
    assert_eq!(autocomplete_character_name(&characters, 8, "ev"), vec![characters[2].get_autocomplete_name().clone()]);
    assert_eq!(autocomplete_owned_character_name(&characters, 7, 10, "ev"), vec![characters[0].get_autocomplete_name().clone()]);
}

#[test]
fn completion_with_given_lowercase_forms() {
    let names = vec!["Beta".to_string(), "alpha".to_string(), "ALPACA".to_string()];
    let lowered = vec!["beta".to_string(), "alpha".to_string(), "alpaca".to_string()];
    assert_eq!(complete_lowered("al", &names, &lowered), vec!["ALPACA".to_string(), "alpha".to_string()]);
    assert_eq!(complete_lowered("ta", &names, &lowered), vec!["Beta".to_string()]);
    let chars = vec![item(1, "Eve", 1, 9, "a"), item(2, "EVE", 2, 9, "b")];
    let low = vec!["eve".to_string(), "eve".to_string()];
    assert!(find_character_lowered(&chars, &low, 9, "Eve", "eve").is_none());
    assert_eq!(find_character_lowered(&chars, &low, 9, "EVE (@b)", "eve (@b)").unwrap().id, 2);
}
