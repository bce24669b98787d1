use pokerole_discord_bot::efficiency::{get_type_resistances_string, print, Efficiency, EfficiencyMapping};
use pokerole_discord_bot::encounter::{build_encounter, AbilityData, EncounterMon, MoveData};
use pokerole_discord_bot::game::{
    CombatOrSocialStat, Gender, MysteryDungeonRank, Pokemon, PokemonStat, PokemonType, RankedMove, RegionalVariant,
    SocialStat, Stat,
};
use pokerole_discord_bot::hp_modifier::{build_string as hp_table, get_hp_segments};
use pokerole_discord_bot::scale::{needs_admin_request, scale_message};
use pokerole_discord_bot::metronome::{get_metronome_text, metronome_text, MoveDescription};
use pokerole_discord_bot::sprites::{
    build_string as sprite_links, emoji_image_bytes, emoji_name, emoji_sprite_path, emojis_to_create, SpriteImage,
};

fn stat(min: u8, max: u8) -> PokemonStat {
    PokemonStat { min, max }
}

fn species(name: &str) -> Pokemon {
    Pokemon {
        name: name.to_string(),
        poke_api_id: 25,
        generation: 1,
        has_gender_differences: true,
        regional_variant: None,
        type1: PokemonType::Electric,
        type2: None,
        base_hp: 3,
        strength: stat(2, 4),
        dexterity: stat(2, 5),
        vitality: stat(1, 3),
        special: stat(2, 4),
        insight: stat(2, 4),
        ability1: "Static".to_string(),
        ability2: Some("Surge".to_string()),
        hidden_ability: Some("Lightning Rod".to_string()),
        moves_by_rank: vec![
            RankedMove { name: "Thunder Shock".to_string(), rank: MysteryDungeonRank::Bronze },
            RankedMove { name: "Quick Attack".to_string(), rank: MysteryDungeonRank::Bronze },
            RankedMove { name: "Thunderbolt".to_string(), rank: MysteryDungeonRank::Gold },
        ],
    }
}

#[test]
fn type_chart_groups_types() {
    let mut effs = vec![Efficiency::Normal; 18];
    effs[4] = Efficiency::SuperEffective; // Ground
    effs[2] = Efficiency::Ineffective; // Flying
    effs[16] = Efficiency::Ineffective; // Dark
    let text = get_type_resistances_string(&species("Pikachu"), "<:p:1> ".to_string(), &effs);
    assert_eq!(
        text,
        "## Type Efficiency against <:p:1> Pikachu\n### Super Effective\nGround\n### Ineffective\nFlying  |  Dark\n"
    );
}

#[test]
fn print_skips_shadow_and_other_efficiencies() {
    let m = vec![
        EfficiencyMapping { pokemon_type: PokemonType::Shadow, efficiency: Efficiency::Immune },
        EfficiencyMapping { pokemon_type: PokemonType::Normal, efficiency: Efficiency::Effective },
    ];
    let mut s = String::new();
    print(&mut s, &m, Efficiency::Immune);
    assert_eq!(s, "");
    print(&mut s, &m, Efficiency::Effective);
    assert_eq!(s, "### Effective\nNormal\n");
}

#[test]
fn encounter_ranks_and_social_points() {
    assert_eq!(EncounterMon::get_rank_from_level(0), MysteryDungeonRank::Diamond);
    assert_eq!(EncounterMon::get_rank_from_level(1), MysteryDungeonRank::Bronze);
    assert_eq!(EncounterMon::get_rank_from_level(3), MysteryDungeonRank::Silver);
    assert_eq!(EncounterMon::get_rank_from_level(7), MysteryDungeonRank::Gold);
    assert_eq!(EncounterMon::get_rank_from_level(15), MysteryDungeonRank::Platinum);
    assert_eq!(EncounterMon::get_rank_from_level(16), MysteryDungeonRank::Diamond);
    assert_eq!(EncounterMon::calculate_social_points(&MysteryDungeonRank::Bronze), 4);
    assert_eq!(EncounterMon::calculate_social_points(&MysteryDungeonRank::Diamond), 12);
    let p = species("Pikachu");
    assert_eq!(EncounterMon::ability_for_roll(&p, 99), "Lightning Rod");
    assert_eq!(EncounterMon::ability_for_roll(&p, 50), "Surge");
    assert_eq!(EncounterMon::ability_for_roll(&p, 43), "Static");
}

#[test]
fn encountered_pokemon_spend_their_points() {
    let p = species("Pikachu");
    for _ in 0..20 {
        let m = EncounterMon::from_pokemon(&p, 5);
        let spent = (m.strength - 2) + (m.dexterity - 2) + (m.vitality - 1) + (m.special - 2) + (m.insight - 2);
        assert_eq!(spent, 8);
        assert!(m.strength <= 4 && m.dexterity <= 5 && m.vitality <= 3 && m.special <= 4 && m.insight <= 4);
        let social = (m.tough - 1) + (m.cool - 1) + (m.beauty - 1) + (m.clever - 1) + (m.cute - 1);
        assert_eq!(social as u8, EncounterMon::calculate_social_points(&m.rank));
        assert_eq!(m.hp, (3 + m.vitality) * 2);
        assert_eq!(m.will, m.insight + 2);
        assert_eq!(m.rank, MysteryDungeonRank::Gold);
        assert_eq!(m.moves.len(), 3.min(m.insight as usize + 2));
    }
    assert_eq!(build_encounter(&p, 5, Some(3)).len(), 3);
    assert_eq!(build_encounter(&p, 5, None).len(), 1);
}

fn mon() -> EncounterMon {
    EncounterMon {
        name: "Pikachu".to_string(),
        gender: Gender::Female,
        type1: PokemonType::Electric,
        type2: None,
        level: 5,
        rank: MysteryDungeonRank::Gold,
        ability: "Static".to_string(),
        hp: 8,
        will: 5,
        strength: 3,
        dexterity: 4,
        vitality: 1,
        special: 4,
        insight: 3,
        tough: 2,
        cool: 3,
        beauty: 2,
        clever: 1,
        cute: 2,
        moves: vec!["Thunder Shock".to_string()],
    }
}

#[test]
fn dice_of_moves() {
    let m = mon();
    assert_eq!(m.get_stat(&Stat::StrengthOrSpecial), 4);
    assert_eq!(m.get_social_stat(&SocialStat::Cool), 3);
    assert_eq!(m.get_die_count_for_stat(CombatOrSocialStat::MissingBeauty), 3);
    assert_eq!(m.get_die_count_for_stat(CombatOrSocialStat::Brawl), 3);
    let shock = MoveData {
        name: "Thunder Shock".to_string(),
        typing: PokemonType::Electric,
        category: "Special".to_string(),
        target: "Foe".to_string(),
        accuracy1: Some(CombatOrSocialStat::Dexterity),
        accuracy2: Some(CombatOrSocialStat::Channel),
        power: 2,
        damage1: Some(Stat::Special),
        happiness_damage: None,
        effect: Some("May paralyze.".to_string()),
    };
    assert_eq!(m.calculate_accuracy(&shock), 7);
    assert_eq!(m.calculate_damage(&shock), 6);
    let ability = AbilityData { name: "Static".to_string(), effect: "Paralyzes on contact.".to_string() };
    let text = m.build_string(&species("Pikachu"), &ability, &vec![shock]);
    let expected = "Pikachu (Female) | **Lv.5 (Gold)**\n**Type**: Electric\n```\nHP: 8  |  Def: 1  |  SpDef: 2\nSTR:  3 /  4      Tough:  2 / 5\nDEX:  4 /  5      Cool:   3 / 5\nVIT:  1 /  3      Beauty: 2 / 5\nSPE:  4 /  4      Clever: 1 / 5\nINS:  3 /  4      Cute:   2 / 5\n```**Ability**: Static\n*Paralyzes on contact.*\n## Moves\n**Thunder Shock** – Electric | Special | Foe\nACC: **7** | DMG: **6 + STAB**\nMay paralyze.\n\n";
    assert_eq!(text, expected);
    let shock2 = MoveData {
        name: "Thunder Shock".to_string(),
        typing: PokemonType::Electric,
        category: "Special".to_string(),
        target: "Foe".to_string(),
        accuracy1: Some(CombatOrSocialStat::Dexterity),
        accuracy2: Some(CombatOrSocialStat::Channel),
        power: 2,
        damage1: Some(Stat::Special),
        happiness_damage: None,
        effect: Some("May paralyze.".to_string()),
    };
    let abilities = vec![
        AbilityData { name: "Overgrow".to_string(), effect: "Grass boost.".to_string() },
        AbilityData { name: "static".to_string(), effect: "Paralyzes on contact.".to_string() },
    ];
    let described = m.describe_encounter(&species("Pikachu"), &abilities, &vec![shock2]);
    assert_eq!(described.as_deref(), Some(expected));
    assert_eq!(m.describe_encounter(&species("Pikachu"), &abilities, &Vec::new()), None);
    assert_eq!(m.describe_encounter(&species("Pikachu"), &Vec::new(), &Vec::new()), None);
}

#[test]
fn hp_thresholds() {
    assert_eq!(get_hp_segments(10), [8, 6, 4, 2]);
    assert_eq!(get_hp_segments(7), [6, 5, 3, 2]);
    assert_eq!(
        hp_table(10),
        "With 10 max hp, you have the following die thresholds depending on your current hp: ```\n 8 -  9 -> 1 dice\n 6 -  8 -> 2 dice\n 4 -  6 -> 3 dice\n 2 -  4 -> 4 dice\n 1 -  2 -> 5 dice\n```"
    );
}

#[test]
fn hp_thresholds_match_the_float_formula() {
    for n in 1..=255u8 {
        let seg = get_hp_segments(n);
        let size = n as f32 * 0.2;
        assert_eq!(seg[0], (size * 4.0).ceil() as u8);
        assert_eq!(seg[1], (size * 3.0).ceil() as u8);
        assert_eq!(seg[2], (size * 2.0).ceil() as u8);
        assert_eq!(seg[3], (size * 1.0).ceil() as u8);
    }
}

#[test]
fn sprite_links_by_generation() {
    let text = sprite_links(&species("Pikachu"));
    assert!(text.starts_with("## Animated Gen 5 sprite\nMale/Unisex: <https://github.com/PokeAPI/sprites/blob/master/sprites/pokemon/versions/generation-v/black-white/animated/25.gif>\nFemale: <"));
    assert!(text.contains("## Regular Front Sprite\nMale/Unisex: <https://github.com/PokeAPI/sprites/blob/master/sprites/pokemon/25.png>\n"));
    let mut later = species("Sprigatito");
    later.generation = 9;
    later.has_gender_differences = false;
    assert!(sprite_links(&later).starts_with("## Regular Front Sprite\n"));
}

#[test]
fn emoji_names() {
    let p = species("Pikachu");
    assert_eq!(emoji_name(&p, &Gender::Female, false), "pikachu_female");
    assert_eq!(emoji_name(&p, &Gender::Male, true), "shiny_pikachu");
    let mut v = species("Vulpix (Alolan Form)");
    v.regional_variant = Some(RegionalVariant::Alola);
    v.has_gender_differences = false;
    assert_eq!(emoji_name(&v, &Gender::Male, false), "alolan_vulpix");
    let mut g = species("Ponyta (Galarian Form)");
    g.regional_variant = Some(RegionalVariant::Galar);
    g.has_gender_differences = false;
    assert_eq!(emoji_name(&g, &Gender::Male, false), "galarianponyta");
}

#[test]
fn crop_rectangle_is_tight() {
    let mut pixels = vec![(0u8, 0u8, 0u8, 0u8); 16];
    pixels[1 * 4 + 1] = (255, 0, 0, 255);
    pixels[2 * 4 + 2] = (0, 0, 0, 1);
    let image = SpriteImage { width: 4, height: 4, pixels, alpha_only: false };
    assert_eq!(image.find_top_border(), 1);
    assert_eq!(image.find_bottom_border(), 3);
    assert_eq!(image.find_left_border(), 1);
    assert_eq!(image.find_right_border(), 3);
    assert_eq!(image.crop_rectangle(), (1, 1, 2, 2));
    let empty = SpriteImage { width: 3, height: 2, pixels: vec![(0, 0, 0, 0); 6], alpha_only: false };
    assert_eq!(empty.crop_rectangle(), (0, 0, 3, 2));
}

#[test]
fn alpha_only_sprites_ignore_colour_of_transparent_pixels() {
    let mut pixels = vec![(0u8, 0u8, 0u8, 0u8); 16];
    pixels[0] = (255, 255, 255, 0);
    pixels[2 * 4 + 1] = (10, 10, 10, 255);
    let by_alpha = SpriteImage { width: 4, height: 4, pixels: pixels.clone(), alpha_only: true };
    assert_eq!(by_alpha.crop_rectangle(), (1, 2, 1, 1));
    let by_any = SpriteImage { width: 4, height: 4, pixels, alpha_only: false };
    assert_eq!(by_any.crop_rectangle(), (0, 0, 2, 3));
}

#[test]
fn square_crop_grows_upwards() {
    // A filled block three wide and one high on row 2 of a 5x4 sprite.
    let mut pixels = vec![(0u8, 0u8, 0u8, 0u8); 20];
    for x in 1..4 {
        pixels[2 * 5 + x] = (1, 1, 1, 255);
    }
    let sprite = SpriteImage { width: 5, height: 4, pixels, alpha_only: true };
    assert_eq!(sprite.crop_rectangle(), (1, 2, 3, 1));
    // Two rows are added above; the top stays at row 0.
    assert_eq!(sprite.square_crop_rectangle(), (1, 0, 3, 3));

    // Only one row above the block: the top is clamped at 0.
    let mut pixels = vec![(0u8, 0u8, 0u8, 0u8); 20];
    for x in 0..4 {
        pixels[1 * 5 + x] = (1, 1, 1, 255);
    }
    let wide = SpriteImage { width: 5, height: 4, pixels, alpha_only: true };
    assert_eq!(wide.square_crop_rectangle(), (0, 0, 4, 2));

    // A tall block stays as it is.
    let mut pixels = vec![(0u8, 0u8, 0u8, 0u8); 20];
    for y in 0..4 {
        pixels[y * 5 + 2] = (1, 1, 1, 255);
    }
    let tall = SpriteImage { width: 5, height: 4, pixels, alpha_only: true };
    assert_eq!(tall.square_crop_rectangle(), (2, 0, 1, 4));
}

#[test]
fn emoji_sprite_paths() {
    let p = species("Pikachu");
    assert_eq!(emoji_sprite_path("/data/", &p, false, false, false), "/data/sprites/pokemon/25.png");
    assert_eq!(
        emoji_sprite_path("/data/", &p, true, true, true),
        "/data/sprites/pokemon/versions/generation-v/black-white/animated/shiny/female/25.gif"
    );
}

#[test]
fn which_emojis_are_created() {
    assert_eq!(emojis_to_create(true, false, false), (true, true, 2));
    assert_eq!(emojis_to_create(false, false, false), (true, false, 1));
    assert_eq!(emojis_to_create(true, true, false), (false, true, 1));
    assert_eq!(emojis_to_create(true, true, true), (false, false, 0));
}

#[test]
fn metronome_describes_the_drawn_move() {
    let moves = vec![
        MoveDescription { key: "tackle".to_string(), text: "### Tackle\nA charge.".to_string() },
        MoveDescription { key: "splash".to_string(), text: "### Splash\nNothing happens.".to_string() },
    ];
    assert_eq!(metronome_text("Tackle", &moves), "### Tackle\nA charge.");
    assert_eq!(metronome_text("SPLASH", &moves), "### Splash\nNothing happens.");
    assert_eq!(
        metronome_text("Ember", &moves),
        "Error: randomness rolled Ember, but there was no move with that name defined? This should never happen. D:"
    );
    assert_eq!(get_metronome_text(&vec!["Splash".to_string()], &moves), "### Splash\nNothing happens.");
    let drawn = get_metronome_text(&vec!["Tackle".to_string(), "Splash".to_string()], &moves);
    assert!(drawn == "### Tackle\nA charge." || drawn == "### Splash\nNothing happens.");
}

#[test]
fn scaled_sizes_warn_outside_the_usual_range() {
    assert!(needs_admin_request(50));
    assert!(needs_admin_request(66));
    assert!(!needs_admin_request(67));
    assert!(!needs_admin_request(133));
    assert!(needs_admin_request(134));
    assert!(needs_admin_request(200));
    assert_eq!(
        scale_message("Pikachu", 100, "0.4m", "6kg"),
        "**Pikachu scaled to 100%**\n```\n0.4m   |   6kg\n```"
    );
    assert_eq!(
        scale_message("Onix", 150, "13.2m", "315kg"),
        "**Onix scaled to 150%**\nWarning: This size is only allowed after admin request!\n```\n13.2m   |   315kg\n```"
    );
}

#[test]
fn small_ranges_fill_up_then_buy_limit_breaks() {
    let mut p = species("Magikarp");
    p.strength = stat(1, 2);
    p.dexterity = stat(1, 2);
    p.vitality = stat(1, 2);
    p.special = stat(1, 2);
    p.insight = stat(1, 2);
    // Level 10 gives 13 points: 5 fill every stat, 8 are left; breaks cost 2 and 3
    // (5 in all), a third would cost 4 more and 8 is not more than 9.
    for m in build_encounter(&p, 10, Some(20)) {
        assert!(m.strength >= 2 && m.dexterity >= 2 && m.vitality >= 2 && m.special >= 2 && m.insight >= 2);
        let raised = (m.strength - 1) + (m.dexterity - 1) + (m.vitality - 1) + (m.special - 1) + (m.insight - 1);
        assert_eq!(raised, 7);
    }
}

fn png_of(width: u32, height: u32, filled: &[(u32, u32)]) -> Vec<u8> {
    let mut img = image::RgbaImage::new(width, height);
    for &(x, y) in filled {
        img.put_pixel(x, y, image::Rgba([200, 10, 10, 255]));
    }
    let mut out = std::io::Cursor::new(Vec::new());
    image::DynamicImage::ImageRgba8(img).write_to(&mut out, image::ImageOutputFormat::Png).unwrap();
    out.into_inner()
}

#[test]
fn emoji_images_are_cropped_and_squared() {
    // A block three wide and one high on row 5 of an 8x8 sprite.
    let file = png_of(8, 8, &[(2, 5), (3, 5), (4, 5)]);
    let squared = emoji_image_bytes(&file, false, true).unwrap();
    let img = image::load_from_memory(&squared).unwrap().to_rgba8();
    assert_eq!((img.width(), img.height()), (3, 3));
    assert_eq!(img.get_pixel(0, 2).0, [200, 10, 10, 255]);
    assert_eq!(img.get_pixel(0, 0).0[3], 0);

    let plain = emoji_image_bytes(&file, false, false).unwrap();
    let img = image::load_from_memory(&plain).unwrap().to_rgba8();
    assert_eq!((img.width(), img.height()), (3, 1));

    assert_eq!(emoji_image_bytes(&file, true, true), Some(file.clone()));
    assert_eq!(emoji_image_bytes(&vec![1, 2, 3], false, true), None);
}
