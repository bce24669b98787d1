use pokerole_discord_bot::edits::{
    edit_report, plan_character_edit, CharacterEditRecord, CharacterEditRequest, OwnerChoice, SpeciesChoice,
    NO_CHANGES, SPECIES_AND_OVERRIDE, TERA_COUNT_MISSING, TERA_TYPE_MISSING,
};
use pokerole_discord_bot::game::PokemonTypeWithoutShadow;
use pokerole_discord_bot::open_box::{box_item_for_roll, box_items, get_box_item, pick_item, total_rarity, ItemWithRarity};
use pokerole_discord_bot::purchases::{
    backpack_log_message, backpack_offer, hidden_ability_log_message, hidden_ability_offer, outcome_after_store,
    outcome_message, payment_log_message, step_after_answer, PurchaseOutcome, PurchaseStep, ALREADY_UNLOCKED,
    BACKPACK_CONFIRM,
};

#[test]
fn backpack_prices_grow_with_upgrades() {
    let o = backpack_offer("Pika", 1000, 1).ok().unwrap();
    assert_eq!(o.price, 1000);
    assert_eq!(o.updated_money, 0);
    assert_eq!(o.message, "**Upgrading Pika's backpack to 8 slots will require 1000 <:poke_coin:1120237132200546304>.**");
    let e = backpack_offer("Pika", 400, 0).err().unwrap();
    assert_eq!(
        e,
        "**Unable to upgrade Pika's backpack.**\n*Upgrading to 7 slots would require 500 <:poke_coin:1120237132200546304>. Right now, Pika only owns 400 <:poke_coin:1120237132200546304>.*"
    );
}

#[test]
fn hidden_ability_offers() {
    assert_eq!(hidden_ability_offer("Pika", 5000, true).err().unwrap().message, ALREADY_UNLOCKED);
    let e = hidden_ability_offer("Pika", 1999, false).err().unwrap();
    assert_eq!(
        e.message,
        "**Unable to unlock Pika's hidden ability.**\n*That would require 2000 <:poke_coin:1120237132200546304>. Right now, Pika only owns 1999 <:poke_coin:1120237132200546304>.*"
    );
    let o = hidden_ability_offer("Pika", 2500, false).ok().unwrap();
    assert_eq!(o.updated_money, 500);
    assert_eq!(o.message, "**Unlocking Pika's hidden ability will require 2000 <:poke_coin:1120237132200546304>.**");
}

#[test]
fn answers_to_an_offer() {
    assert_eq!(step_after_answer(Some(BACKPACK_CONFIRM), BACKPACK_CONFIRM), PurchaseStep::Store);
    assert_eq!(
        step_after_answer(Some("upgrade_backpack_abort"), BACKPACK_CONFIRM),
        PurchaseStep::Finish(PurchaseOutcome::Cancelled)
    );
    assert_eq!(step_after_answer(None, BACKPACK_CONFIRM), PurchaseStep::Finish(PurchaseOutcome::TimedOut));
    assert_eq!(outcome_after_store(true, 1), PurchaseOutcome::Success);
    assert_eq!(outcome_after_store(true, 0), PurchaseOutcome::Unexpected);
    assert_eq!(outcome_after_store(false, 1), PurchaseOutcome::Unexpected);
    assert_eq!(outcome_message("Offer", PurchaseOutcome::Success, "Upgrade successful!"), "Offer\n\n**Upgrade successful!**");
    assert_eq!(outcome_message("Offer", PurchaseOutcome::Cancelled, "x"), "Offer\n\n**Request was cancelled.**");
    assert_eq!(
        outcome_message("Offer", PurchaseOutcome::TimedOut, "x"),
        "Offer\n\n**Request timed out. Use the command again if needed.**"
    );
    assert_eq!(payment_log_message(500, "Pika"), "Removed 500 <:poke_coin:1120237132200546304> from Pika");
    assert_eq!(backpack_log_message("Pika"), "Increased Pika's backpack size by 1");
    assert_eq!(hidden_ability_log_message("Pika"), "Unlocked Pika's hidden ability!");
}

fn record() -> CharacterEditRecord {
    CharacterEditRecord {
        user_id: 7,
        name: "Pika".to_string(),
        species_api_id: 25,
        is_shiny: false,
        species_override_for_stats: None,
    }
}

fn empty_request() -> CharacterEditRequest {
    CharacterEditRequest {
        name: None,
        species: None,
        species_override_for_stats: None,
        is_shiny: None,
        tera_type: None,
        tera_count: None,
        new_owner: None,
    }
}

#[test]
fn edits_that_are_refused() {
    assert_eq!(plan_character_edit(&record(), &empty_request()).err().unwrap().message, NO_CHANGES);
    let mut q = empty_request();
    q.species = Some(SpeciesChoice { api_id: 26, name: "Raichu".to_string() });
    q.species_override_for_stats = Some(SpeciesChoice { api_id: 25, name: "Pikachu".to_string() });
    assert_eq!(plan_character_edit(&record(), &q).err().unwrap().message, SPECIES_AND_OVERRIDE);
    let mut q = empty_request();
    q.tera_type = Some(PokemonTypeWithoutShadow::Fire);
    assert_eq!(plan_character_edit(&record(), &q).err().unwrap().message, TERA_COUNT_MISSING);
    let mut q = empty_request();
    q.tera_count = Some(2);
    assert_eq!(plan_character_edit(&record(), &q).err().unwrap().message, TERA_TYPE_MISSING);
}

#[test]
fn a_new_species_resets_stats() {
    let mut q = empty_request();
    q.species = Some(SpeciesChoice { api_id: 26, name: "Raichu".to_string() });
    q.name = Some("Sparky".to_string());
    let p = plan_character_edit(&record(), &q).ok().unwrap();
    assert_eq!(p.species_api_id, 26);
    assert_eq!(p.name, "Sparky");
    assert!(p.reset_stats && p.create_emojis && !p.invalidate_cache);
    assert_eq!(p.changes, vec!["species to Raichu".to_string(), "name to Sparky".to_string()]);
    assert_eq!(
        edit_report("Set", "Pika", &p.changes, p.reset_stats),
        "Set Pika's species to Raichu, name to Sparky, and reset their stats."
    );
}

#[test]
fn picking_the_override_species_drops_the_override() {
    let mut r = record();
    r.species_override_for_stats = Some(26);
    let mut q = empty_request();
    q.species = Some(SpeciesChoice { api_id: 26, name: "Raichu".to_string() });
    let p = plan_character_edit(&r, &q).ok().unwrap();
    assert_eq!(p.species_override_for_stats, None);
    assert!(!p.reset_stats);
    assert_eq!(p.changes, vec!["species to Raichu".to_string(), "removed species stat override".to_string()]);
}

#[test]
fn other_edits_are_listed_in_order() {
    let mut q = empty_request();
    q.species_override_for_stats = Some(SpeciesChoice { api_id: 172, name: "Pichu".to_string() });
    q.is_shiny = Some(true);
    q.tera_type = Some(PokemonTypeWithoutShadow::Fire);
    q.tera_count = Some(2);
    q.new_owner = Some(OwnerChoice { id: 9, mention: "<@9>".to_string() });
    let p = plan_character_edit(&record(), &q).ok().unwrap();
    assert_eq!(p.species_override_for_stats, Some(172));
    assert_eq!(p.user_id, 9);
    assert_eq!(p.tera_charges, Some((PokemonTypeWithoutShadow::Fire, 2)));
    assert!(p.reset_stats && p.create_emojis && p.invalidate_cache);
    assert_eq!(
        p.changes,
        vec![
            "species stat override to Pichu".to_string(),
            "is_shiny to true".to_string(),
            "Fire Terastallization count to 2".to_string(),
            "owner to <@9>".to_string(),
        ]
    );
    assert_eq!(edit_report("Updated", "Pika", &p.changes, false), "Updated Pika's species stat override to Pichu, is_shiny to true, Fire Terastallization count to 2, owner to <@9>.");
}

#[test]
fn treasure_box_table_and_picks() {
    let items = box_items();
    assert_eq!(items.len(), 145);
    assert_eq!(total_rarity(&items), 1198);
    assert_eq!(pick_item(&items, 0), Some("Oran Berry".to_string()));
    assert_eq!(pick_item(&items, 29), Some("Oran Berry".to_string()));
    assert_eq!(pick_item(&items, 30), Some("Cherri Berry".to_string()));
    assert_eq!(pick_item(&items, 1197), Some("Loaded Dice".to_string()));
    assert_eq!(pick_item(&items, 1198), None);
    assert_eq!(box_item_for_roll(0), Some("Oran Berry".to_string()));
    assert_eq!(box_item_for_roll(30), Some("Cherri Berry".to_string()));
    assert_eq!(box_item_for_roll(1197), Some("Loaded Dice".to_string()));
    assert_eq!(box_item_for_roll(1198), None);
    let name = get_box_item().unwrap();
    assert!(items.iter().any(|i| i.name == name));
}

#[test]
fn picks_follow_the_running_sum() {
    let items = vec![
        ItemWithRarity { name: "A".to_string(), rarity: 2 },
        ItemWithRarity { name: "B".to_string(), rarity: 0 },
        ItemWithRarity { name: "C".to_string(), rarity: 1 },
    ];
    assert_eq!(pick_item(&items, 1), Some("A".to_string()));
    assert_eq!(pick_item(&items, 2), Some("C".to_string()));
    assert_eq!(pick_item(&items, 3), None);
}
