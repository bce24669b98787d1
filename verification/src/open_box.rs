//! The treasure box: a random item, each item as likely as its rarity says.

use vstd::prelude::*;

use rand::Rng;

use crate::text::{copy_string, push_str};

verus! {

/// An item of the treasure box and its relative chance.
#[derive(Debug)]
pub struct ItemWithRarity {
    pub name: String,
    pub rarity: u16,
}

/// The names and rarities of the items.
pub open spec fn item_views(items: Seq<ItemWithRarity>) -> Seq<(Seq<char>, u16)> {
    items.map_values(|i: ItemWithRarity| (i.name@, i.rarity))
}

/// The rarities of the items.
pub open spec fn rarities(items: Seq<ItemWithRarity>) -> Seq<u16> {
    items.map_values(|i: ItemWithRarity| i.rarity)
}

/// The sum of the first `k` rarities.
pub open spec fn prefix_sum(rs: Seq<u16>, k: int) -> int
    decreases k,
{
    if k <= 0 {
        0
    } else {
        prefix_sum(rs, k - 1) + rs[k - 1]
    }
}

/// Whether a roll falls on the `i`-th item: past the rarities before it, and within
/// its own.
pub open spec fn lands_on(rs: Seq<u16>, roll: int, i: int) -> bool {
    0 <= i < rs.len() && prefix_sum(rs, i) <= roll < prefix_sum(rs, i + 1)
}

/// The item a roll lands on, if any.
pub open spec fn picked_index(rs: Seq<u16>, roll: int) -> Option<int> {
    if exists|i: int| lands_on(rs, roll, i) {
        Some(choose|i: int| lands_on(rs, roll, i))
    } else {
        None
    }
}

/// The name of the item a roll lands on, if any.
pub open spec fn picked_name(items: Seq<ItemWithRarity>, roll: int) -> Option<Seq<char>> {
    match picked_index(rarities(items), roll) {
        Some(i) => Some(items[i].name@),
        None => None,
    }
}

/// The items of the treasure box: berries, seeds, TMs and held items.
pub open spec fn box_table() -> Seq<(Seq<char>, u16)> {
    seq![
        ("Oran Berry"@, 30u16),
        ("Cherri Berry"@, 30u16),
        ("Chesto Berry"@, 30u16),
        ("Rawst Berry"@, 30u16),
        ("Pecha Berry"@, 30u16),
        ("Aspear Berry"@, 30u16),
        ("Persim Berry"@, 30u16),
        ("Eggant Berry"@, 30u16),
        ("Sitrus Berry"@, 15u16),
        ("Lum Berry"@, 15u16),
        ("Leichi Berry"@, 15u16),
        ("Ganlon Berry"@, 15u16),
        ("Petaya Berry"@, 15u16),
        ("Apicot Berry"@, 15u16),
        ("Salac Berry"@, 15u16),
        ("Lansat Berry"@, 15u16),
        ("Starf Berry"@, 15u16),
        ("Leppa Berry"@, 4u16),
        ("Occa Berry"@, 4u16),
        ("Passho Berry"@, 4u16),
        ("Wacan Berry"@, 4u16),
        ("Rindo Berry"@, 4u16),
        ("Yache Berry"@, 4u16),
        ("Chople Berry"@, 4u16),
        ("Kebia Berry"@, 4u16),
        ("Shuca Berry"@, 4u16),
        ("Coba Berry"@, 4u16),
        ("Payapa Berry"@, 4u16),
        ("Tanga Berry"@, 4u16),
        ("Charti Berry"@, 4u16),
        ("Kasib Berry"@, 4u16),
        ("Haban Berry"@, 4u16),
        ("Colbur Berry"@, 4u16),
        ("Babiri Berry"@, 4u16),
        ("Chilan Berry"@, 4u16),
        ("Roseli Berry"@, 4u16),
        ("Pumkin Berry"@, 4u16),
        ("Drash Berry"@, 4u16),
        ("Bitmel Berry"@, 4u16),
        ("Chipe Berry"@, 4u16),
        ("Nomel Berry"@, 4u16),
        ("Nutpea Berry"@, 4u16),
        ("Magost Berry"@, 4u16),
        ("Enigma Berry"@, 2u16),
        ("Blast Seed"@, 75u16),
        ("Stun Seed"@, 75u16),
        ("Sleep Seed"@, 75u16),
        ("Encourage Seed"@, 15u16),
        ("Reviver Seed"@, 10u16),
        ("TM Metronome"@, 120u16),
        ("TM Status Move"@, 50u16),
        ("TM Power 2-3 Move"@, 20u16),
        ("TM Power 5+ Move"@, 10u16),
        ("Normal Gem"@, 4u16),
        ("Fire Gem"@, 4u16),
        ("Water Gem"@, 4u16),
        ("Electric Gem"@, 4u16),
        ("Grass Gem"@, 4u16),
        ("Ice Gem"@, 4u16),
        ("Fighting Gem"@, 4u16),
        ("Poison Gem"@, 4u16),
        ("Ground Gem"@, 4u16),
        ("Flying Gem"@, 4u16),
        ("Psychic Gem"@, 4u16),
        ("Bug Gem"@, 4u16),
        ("Rock Gem"@, 4u16),
        ("Ghost Gem"@, 4u16),
        ("Dragon Gem"@, 4u16),
        ("Dark Gem"@, 4u16),
        ("Steel Gem"@, 4u16),
        ("Fairy Gem"@, 4u16),
        ("Air Balloon"@, 4u16),
        ("Absorb Bulb"@, 4u16),
        ("Luminous Moss"@, 4u16),
        ("Cell Battery"@, 4u16),
        ("Snowball"@, 4u16),
        ("Choice Band"@, 4u16),
        ("Choice Scarf"@, 4u16),
        ("Choice Specs"@, 4u16),
        ("Throat Spray"@, 4u16),
        ("Focus Sash"@, 3u16),
        ("Black Belt"@, 3u16),
        ("Black Glasses"@, 3u16),
        ("Charcoal"@, 3u16),
        ("Dragon Fang"@, 3u16),
        ("Fairy Feather"@, 3u16),
        ("Hard Stone"@, 3u16),
        ("Magnet"@, 3u16),
        ("Metal Coat"@, 3u16),
        ("Miracle Seed"@, 3u16),
        ("Mystic Water"@, 3u16),
        ("Never-Melt Ice"@, 3u16),
        ("Poison Barb"@, 3u16),
        ("Sharp Beak"@, 3u16),
        ("Silk Scarf"@, 3u16),
        ("Silver Powder"@, 3u16),
        ("Soft Sand"@, 3u16),
        ("Spell Tag"@, 3u16),
        ("Twisted Spoon"@, 3u16),
        ("Leftovers"@, 3u16),
        ("Black Sludge"@, 3u16),
        ("Sticky Barbs"@, 3u16),
        ("Destiny Knot"@, 3u16),
        ("Damp Rock"@, 3u16),
        ("Icy Rock"@, 3u16),
        ("Heat Rock"@, 3u16),
        ("Smooth Rock"@, 3u16),
        ("Terrain Extender"@, 3u16),
        ("Electric Seed"@, 3u16),
        ("Grassy Seed"@, 3u16),
        ("Misty Seed"@, 3u16),
        ("Psychic Seed"@, 3u16),
        ("Room Service"@, 3u16),
        ("Mental Herb"@, 3u16),
        ("Power Herb"@, 3u16),
        ("Flame Orb"@, 3u16),
        ("Float Stone"@, 3u16),
        ("Iron Ball"@, 3u16),
        ("Lagging Tail"@, 3u16),
        ("Big Root"@, 3u16),
        ("Ability Shield"@, 3u16),
        ("Mirror Herb"@, 3u16),
        ("King's Rock"@, 2u16),
        ("Quick Claw"@, 2u16),
        ("Eviolite"@, 2u16),
        ("Rocky Helmet"@, 2u16),
        ("Expert Belt"@, 2u16),
        ("Weakness Policy"@, 2u16),
        ("Bright Powder"@, 2u16),
        ("Grip Claw"@, 2u16),
        ("Light Clay"@, 2u16),
        ("Muscle Band"@, 2u16),
        ("Wide Lens"@, 1u16),
        ("Life Orb"@, 1u16),
        ("Razor Claw"@, 1u16),
        ("Scope Lens"@, 1u16),
        ("Shell Bell"@, 1u16),
        ("Safety Goggles"@, 1u16),
        ("Blunder Policy"@, 1u16),
        ("Assault Vest"@, 1u16),
        ("Binding Band"@, 1u16),
        ("Metronome"@, 1u16),
        ("Clear Amulet"@, 1u16),
        ("Covert Cloak"@, 1u16),
        ("Loaded Dice"@, 1u16),
    ]
}

pub proof fn lemma_prefix_sum_monotone(rs: Seq<u16>, j: int, k: int)
    requires
        j <= k,
    ensures
        prefix_sum(rs, j) <= prefix_sum(rs, k),
    decreases k - j,
{
    if j < k {
        lemma_prefix_sum_monotone(rs, j, k - 1);
    }
}

/// A roll lands on at most one item.
pub proof fn lemma_lands_on_unique(rs: Seq<u16>, roll: int, i: int, j: int)
    requires
        lands_on(rs, roll, i),
        lands_on(rs, roll, j),
    ensures
        i == j,
{
    if i < j {
        lemma_prefix_sum_monotone(rs, i + 1, j);
    } else if j < i {
        lemma_prefix_sum_monotone(rs, j + 1, i);
    }
}

/// Each item is picked for exactly as many rolls as its rarity: the rolls from the sum of
/// the rarities before it up to that sum plus its own rarity, and for no other roll.
pub proof fn law_pick_matches_rarity(items: Seq<ItemWithRarity>, i: int, roll: int)
    requires
        0 <= i < items.len(),
    ensures
        picked_index(rarities(items), roll) == Some(i) <==> prefix_sum(rarities(items), i) <= roll
            < prefix_sum(rarities(items), i) + items[i].rarity,
{
    let rs = rarities(items);
    if prefix_sum(rs, i) <= roll < prefix_sum(rs, i) + items[i].rarity {
        assert(lands_on(rs, roll, i));
        let k = choose|k: int| lands_on(rs, roll, k);
        lemma_lands_on_unique(rs, roll, i, k);
    }
    if picked_index(rs, roll) == Some(i) {
        let k = choose|k: int| lands_on(rs, roll, k);
        assert(lands_on(rs, roll, k));
    }
}

/// Every roll below the total of the rarities lands on an item.
pub proof fn law_roll_below_total_picks(items: Seq<ItemWithRarity>, roll: int)
    requires
        0 <= roll < prefix_sum(rarities(items), items.len() as int),
    ensures
        picked_index(rarities(items), roll) is Some,
    decreases items.len(),
{
    let rs = rarities(items);
    lemma_some_lands(rs, roll, items.len() as int);
}

proof fn lemma_some_lands(rs: Seq<u16>, roll: int, n: int)
    requires
        0 <= roll < prefix_sum(rs, n),
        n <= rs.len(),
    ensures
        exists|i: int| lands_on(rs, roll, i),
    decreases n,
{
    if roll < prefix_sum(rs, n - 1) {
        lemma_some_lands(rs, roll, n - 1);
    } else {
        assert(lands_on(rs, roll, n - 1));
    }
}

fn item(name: &str, rarity: u16) -> (r: ItemWithRarity)
    ensures
        r.name@ == name@,
        r.rarity == rarity,
{
    let mut s = String::new();
    push_str(&mut s, name);
    ItemWithRarity { name: s, rarity }
}

/// The items of the treasure box.
pub fn box_items() -> (v: Vec<ItemWithRarity>)
    ensures
        item_views(v@) == box_table(),
        rarities(v@) == table_rarities(),
{
    let v = vec![
        item("Oran Berry", 30),
        item("Cherri Berry", 30),
        item("Chesto Berry", 30),
        item("Rawst Berry", 30),
        item("Pecha Berry", 30),
        item("Aspear Berry", 30),
        item("Persim Berry", 30),
        item("Eggant Berry", 30),
        item("Sitrus Berry", 15),
        item("Lum Berry", 15),
        item("Leichi Berry", 15),
        item("Ganlon Berry", 15),
        item("Petaya Berry", 15),
        item("Apicot Berry", 15),
        item("Salac Berry", 15),
        item("Lansat Berry", 15),
        item("Starf Berry", 15),
        item("Leppa Berry", 4),
        item("Occa Berry", 4),
        item("Passho Berry", 4),
        item("Wacan Berry", 4),
        item("Rindo Berry", 4),
        item("Yache Berry", 4),
        item("Chople Berry", 4),
        item("Kebia Berry", 4),
        item("Shuca Berry", 4),
        item("Coba Berry", 4),
        item("Payapa Berry", 4),
        item("Tanga Berry", 4),
        item("Charti Berry", 4),
        item("Kasib Berry", 4),
        item("Haban Berry", 4),
        item("Colbur Berry", 4),
        item("Babiri Berry", 4),
        item("Chilan Berry", 4),
        item("Roseli Berry", 4),
        item("Pumkin Berry", 4),
        item("Drash Berry", 4),
        item("Bitmel Berry", 4),
        item("Chipe Berry", 4),
        item("Nomel Berry", 4),
        item("Nutpea Berry", 4),
        item("Magost Berry", 4),
        item("Enigma Berry", 2),
        item("Blast Seed", 75),
        item("Stun Seed", 75),
        item("Sleep Seed", 75),
        item("Encourage Seed", 15),
        item("Reviver Seed", 10),
        item("TM Metronome", 120),
        item("TM Status Move", 50),
        item("TM Power 2-3 Move", 20),
        item("TM Power 5+ Move", 10),
        item("Normal Gem", 4),
        item("Fire Gem", 4),
        item("Water Gem", 4),
        item("Electric Gem", 4),
        item("Grass Gem", 4),
        item("Ice Gem", 4),
        item("Fighting Gem", 4),
        item("Poison Gem", 4),
        item("Ground Gem", 4),
        item("Flying Gem", 4),
        item("Psychic Gem", 4),
        item("Bug Gem", 4),
        item("Rock Gem", 4),
        item("Ghost Gem", 4),
        item("Dragon Gem", 4),
        item("Dark Gem", 4),
        item("Steel Gem", 4),
        item("Fairy Gem", 4),
        item("Air Balloon", 4),
        item("Absorb Bulb", 4),
        item("Luminous Moss", 4),
        item("Cell Battery", 4),
        item("Snowball", 4),
        item("Choice Band", 4),
        item("Choice Scarf", 4),
        item("Choice Specs", 4),
        item("Throat Spray", 4),
        item("Focus Sash", 3),
        item("Black Belt", 3),
        item("Black Glasses", 3),
        item("Charcoal", 3),
        item("Dragon Fang", 3),
        item("Fairy Feather", 3),
        item("Hard Stone", 3),
        item("Magnet", 3),
        item("Metal Coat", 3),
        item("Miracle Seed", 3),
        item("Mystic Water", 3),
        item("Never-Melt Ice", 3),
        item("Poison Barb", 3),
        item("Sharp Beak", 3),
        item("Silk Scarf", 3),
        item("Silver Powder", 3),
        item("Soft Sand", 3),
        item("Spell Tag", 3),
        item("Twisted Spoon", 3),
        item("Leftovers", 3),
        item("Black Sludge", 3),
        item("Sticky Barbs", 3),
        item("Destiny Knot", 3),
        item("Damp Rock", 3),
        item("Icy Rock", 3),
        item("Heat Rock", 3),
        item("Smooth Rock", 3),
        item("Terrain Extender", 3),
        item("Electric Seed", 3),
        item("Grassy Seed", 3),
        item("Misty Seed", 3),
        item("Psychic Seed", 3),
        item("Room Service", 3),
        item("Mental Herb", 3),
        item("Power Herb", 3),
        item("Flame Orb", 3),
        item("Float Stone", 3),
        item("Iron Ball", 3),
        item("Lagging Tail", 3),
        item("Big Root", 3),
        item("Ability Shield", 3),
        item("Mirror Herb", 3),
        item("King's Rock", 2),
        item("Quick Claw", 2),
        item("Eviolite", 2),
        item("Rocky Helmet", 2),
        item("Expert Belt", 2),
        item("Weakness Policy", 2),
        item("Bright Powder", 2),
        item("Grip Claw", 2),
        item("Light Clay", 2),
        item("Muscle Band", 2),
        item("Wide Lens", 1),
        item("Life Orb", 1),
        item("Razor Claw", 1),
        item("Scope Lens", 1),
        item("Shell Bell", 1),
        item("Safety Goggles", 1),
        item("Blunder Policy", 1),
        item("Assault Vest", 1),
        item("Binding Band", 1),
        item("Metronome", 1),
        item("Clear Amulet", 1),
        item("Covert Cloak", 1),
        item("Loaded Dice", 1),
    ];
    assert(item_views(v@) =~= box_table());
    assert(rarities(v@) =~= table_rarities());
    v
}

/// The sum of all rarities.
pub fn total_rarity(items: &Vec<ItemWithRarity>) -> (t: u16)
    requires
        prefix_sum(rarities(items@), items.len() as int) <= u16::MAX,
    ensures
        t == prefix_sum(rarities(items@), items.len() as int),
{
    let mut total: u16 = 0;
    let mut i: usize = 0;
    while i < items.len()
        invariant
            i <= items.len(),
            total == prefix_sum(rarities(items@), i as int),
            prefix_sum(rarities(items@), items.len() as int) <= u16::MAX,
        decreases items.len() - i,
    {
        proof {
            lemma_prefix_sum_monotone(rarities(items@), i + 1, items.len() as int);
        }
        total = total + items[i].rarity;
        i = i + 1;
    }
    total
}

/// The item that a roll lands on: the first whose running sum of rarities exceeds it.
pub fn pick_item(items: &Vec<ItemWithRarity>, roll: u16) -> (r: Option<String>)
    requires
        prefix_sum(rarities(items@), items.len() as int) <= u16::MAX,
    ensures
        match r {
            Some(name) => picked_name(items@, roll as int) == Some(name@),
            None => picked_name(items@, roll as int) is None,
        },
{
    let ghost rs = rarities(items@);
    let mut cumulative_rarity: u16 = 0;
    let mut i: usize = 0;
    while i < items.len()
        invariant
            i <= items.len(),
            rs == rarities(items@),
            cumulative_rarity == prefix_sum(rs, i as int),
            roll >= cumulative_rarity,
            prefix_sum(rs, items.len() as int) <= u16::MAX,
        decreases items.len() - i,
    {
        proof {
            lemma_prefix_sum_monotone(rs, i + 1, items.len() as int);
        }
        cumulative_rarity = cumulative_rarity + items[i].rarity;
        if roll < cumulative_rarity {
            proof {
                assert(lands_on(rs, roll as int, i as int));
                let k = choose|k: int| lands_on(rs, roll as int, k);
                lemma_lands_on_unique(rs, roll as int, i as int, k);
            }
            return Some(copy_string(&items[i].name));
        }
        i = i + 1;
    }
    proof {
        if exists|k: int| lands_on(rs, roll as int, k) {
            let k = choose|k: int| lands_on(rs, roll as int, k);
            lemma_prefix_sum_monotone(rs, k + 1, items.len() as int);
        }
    }
    None
}

/// `rand::Rng::gen_range(0..upper)` on `rand::thread_rng()`: some number below `upper`.
/// Which one is left to chance.
#[verifier::external_body]
fn random_u16_below(upper: u16) -> (r: u16)
    requires
        upper > 0,
    ensures
        r < upper,
{
    rand::thread_rng().gen_range(0..upper)
}

/// The rarities of the treasure box's items, in the order of the table.
pub open spec fn table_rarities() -> Seq<u16> {
    seq![30u16, 30u16, 30u16, 30u16, 30u16, 30u16, 30u16, 30u16, 15u16, 15u16] + seq![15u16, 15u16, 15u16, 15u16, 15u16, 15u16, 15u16, 4u16, 4u16, 4u16] + seq![4u16, 4u16, 4u16, 4u16, 4u16, 4u16, 4u16, 4u16, 4u16, 4u16] + seq![4u16, 4u16, 4u16, 4u16, 4u16, 4u16, 4u16, 4u16, 4u16, 4u16] + seq![4u16, 4u16, 4u16, 2u16, 75u16, 75u16, 75u16, 15u16, 10u16, 120u16] + seq![50u16, 20u16, 10u16, 4u16, 4u16, 4u16, 4u16, 4u16, 4u16, 4u16] + seq![4u16, 4u16, 4u16, 4u16, 4u16, 4u16, 4u16, 4u16, 4u16, 4u16] + seq![4u16, 4u16, 4u16, 4u16, 4u16, 4u16, 4u16, 4u16, 4u16, 4u16] + seq![3u16, 3u16, 3u16, 3u16, 3u16, 3u16, 3u16, 3u16, 3u16, 3u16] + seq![3u16, 3u16, 3u16, 3u16, 3u16, 3u16, 3u16, 3u16, 3u16, 3u16] + seq![3u16, 3u16, 3u16, 3u16, 3u16, 3u16, 3u16, 3u16, 3u16, 3u16] + seq![3u16, 3u16, 3u16, 3u16, 3u16, 3u16, 3u16, 3u16, 3u16, 3u16] + seq![3u16, 3u16, 2u16, 2u16, 2u16, 2u16, 2u16, 2u16, 2u16, 2u16] + seq![2u16, 2u16, 1u16, 1u16, 1u16, 1u16, 1u16, 1u16, 1u16, 1u16] + seq![1u16, 1u16, 1u16, 1u16, 1u16]
}

/// The sum of all rarities of a list.
pub open spec fn rarity_total(rs: Seq<u16>) -> int {
    prefix_sum(rs, rs.len() as int)
}

proof fn lemma_prefix_sum_append(a: Seq<u16>, b: Seq<u16>, k: int)
    requires
        0 <= k <= b.len(),
    ensures
        prefix_sum(a + b, a.len() + k) == rarity_total(a) + prefix_sum(b, k),
    decreases k,
{
    if k == 0 {
        assert forall|j: int| 0 <= j <= a.len() implies prefix_sum(a + b, j) == prefix_sum(a, j) by {
            lemma_prefix_sum_prefix(a, b, j);
        }
    } else {
        lemma_prefix_sum_append(a, b, k - 1);
        assert((a + b)[a.len() + k - 1] == b[k - 1]);
    }
}

proof fn lemma_prefix_sum_prefix(a: Seq<u16>, b: Seq<u16>, j: int)
    requires
        0 <= j <= a.len(),
    ensures
        prefix_sum(a + b, j) == prefix_sum(a, j),
    decreases j,
{
    if j > 0 {
        lemma_prefix_sum_prefix(a, b, j - 1);
        assert((a + b)[j - 1] == a[j - 1]);
    }
}

proof fn lemma_total_append(a: Seq<u16>, b: Seq<u16>)
    ensures
        rarity_total(a + b) == rarity_total(a) + rarity_total(b),
{
    lemma_prefix_sum_append(a, b, b.len() as int);
}

/// The rarities of the treasure box add up to 1198.
pub proof fn lemma_table_total()
    ensures
        table_rarities().len() == 145,
        rarity_total(table_rarities()) == 1198,
{
    reveal_with_fuel(prefix_sum, 11);
    assert(rarity_total(seq![30u16, 30u16, 30u16, 30u16, 30u16, 30u16, 30u16, 30u16, 15u16, 15u16]) == 270);
    assert(rarity_total(seq![15u16, 15u16, 15u16, 15u16, 15u16, 15u16, 15u16, 4u16, 4u16, 4u16]) == 117);
    assert(rarity_total(seq![4u16, 4u16, 4u16, 4u16, 4u16, 4u16, 4u16, 4u16, 4u16, 4u16]) == 40);
    assert(rarity_total(seq![4u16, 4u16, 4u16, 4u16, 4u16, 4u16, 4u16, 4u16, 4u16, 4u16]) == 40);
    assert(rarity_total(seq![4u16, 4u16, 4u16, 2u16, 75u16, 75u16, 75u16, 15u16, 10u16, 120u16]) == 384);
    assert(rarity_total(seq![50u16, 20u16, 10u16, 4u16, 4u16, 4u16, 4u16, 4u16, 4u16, 4u16]) == 108);
    assert(rarity_total(seq![4u16, 4u16, 4u16, 4u16, 4u16, 4u16, 4u16, 4u16, 4u16, 4u16]) == 40);
    assert(rarity_total(seq![4u16, 4u16, 4u16, 4u16, 4u16, 4u16, 4u16, 4u16, 4u16, 4u16]) == 40);
    assert(rarity_total(seq![3u16, 3u16, 3u16, 3u16, 3u16, 3u16, 3u16, 3u16, 3u16, 3u16]) == 30);
    assert(rarity_total(seq![3u16, 3u16, 3u16, 3u16, 3u16, 3u16, 3u16, 3u16, 3u16, 3u16]) == 30);
    assert(rarity_total(seq![3u16, 3u16, 3u16, 3u16, 3u16, 3u16, 3u16, 3u16, 3u16, 3u16]) == 30);
    assert(rarity_total(seq![3u16, 3u16, 3u16, 3u16, 3u16, 3u16, 3u16, 3u16, 3u16, 3u16]) == 30);
    assert(rarity_total(seq![3u16, 3u16, 2u16, 2u16, 2u16, 2u16, 2u16, 2u16, 2u16, 2u16]) == 22);
    assert(rarity_total(seq![2u16, 2u16, 1u16, 1u16, 1u16, 1u16, 1u16, 1u16, 1u16, 1u16]) == 12);
    assert(rarity_total(seq![1u16, 1u16, 1u16, 1u16, 1u16]) == 5);
    lemma_total_append(seq![30u16, 30u16, 30u16, 30u16, 30u16, 30u16, 30u16, 30u16, 15u16, 15u16], seq![15u16, 15u16, 15u16, 15u16, 15u16, 15u16, 15u16, 4u16, 4u16, 4u16]);
    lemma_total_append(seq![30u16, 30u16, 30u16, 30u16, 30u16, 30u16, 30u16, 30u16, 15u16, 15u16] + seq![15u16, 15u16, 15u16, 15u16, 15u16, 15u16, 15u16, 4u16, 4u16, 4u16], seq![4u16, 4u16, 4u16, 4u16, 4u16, 4u16, 4u16, 4u16, 4u16, 4u16]);
    lemma_total_append(seq![30u16, 30u16, 30u16, 30u16, 30u16, 30u16, 30u16, 30u16, 15u16, 15u16] + seq![15u16, 15u16, 15u16, 15u16, 15u16, 15u16, 15u16, 4u16, 4u16, 4u16] + seq![4u16, 4u16, 4u16, 4u16, 4u16, 4u16, 4u16, 4u16, 4u16, 4u16], seq![4u16, 4u16, 4u16, 4u16, 4u16, 4u16, 4u16, 4u16, 4u16, 4u16]);
    lemma_total_append(seq![30u16, 30u16, 30u16, 30u16, 30u16, 30u16, 30u16, 30u16, 15u16, 15u16] + seq![15u16, 15u16, 15u16, 15u16, 15u16, 15u16, 15u16, 4u16, 4u16, 4u16] + seq![4u16, 4u16, 4u16, 4u16, 4u16, 4u16, 4u16, 4u16, 4u16, 4u16] + seq![4u16, 4u16, 4u16, 4u16, 4u16, 4u16, 4u16, 4u16, 4u16, 4u16], seq![4u16, 4u16, 4u16, 2u16, 75u16, 75u16, 75u16, 15u16, 10u16, 120u16]);
    lemma_total_append(seq![30u16, 30u16, 30u16, 30u16, 30u16, 30u16, 30u16, 30u16, 15u16, 15u16] + seq![15u16, 15u16, 15u16, 15u16, 15u16, 15u16, 15u16, 4u16, 4u16, 4u16] + seq![4u16, 4u16, 4u16, 4u16, 4u16, 4u16, 4u16, 4u16, 4u16, 4u16] + seq![4u16, 4u16, 4u16, 4u16, 4u16, 4u16, 4u16, 4u16, 4u16, 4u16] + seq![4u16, 4u16, 4u16, 2u16, 75u16, 75u16, 75u16, 15u16, 10u16, 120u16], seq![50u16, 20u16, 10u16, 4u16, 4u16, 4u16, 4u16, 4u16, 4u16, 4u16]);
    lemma_total_append(seq![30u16, 30u16, 30u16, 30u16, 30u16, 30u16, 30u16, 30u16, 15u16, 15u16] + seq![15u16, 15u16, 15u16, 15u16, 15u16, 15u16, 15u16, 4u16, 4u16, 4u16] + seq![4u16, 4u16, 4u16, 4u16, 4u16, 4u16, 4u16, 4u16, 4u16, 4u16] + seq![4u16, 4u16, 4u16, 4u16, 4u16, 4u16, 4u16, 4u16, 4u16, 4u16] + seq![4u16, 4u16, 4u16, 2u16, 75u16, 75u16, 75u16, 15u16, 10u16, 120u16] + seq![50u16, 20u16, 10u16, 4u16, 4u16, 4u16, 4u16, 4u16, 4u16, 4u16], seq![4u16, 4u16, 4u16, 4u16, 4u16, 4u16, 4u16, 4u16, 4u16, 4u16]);
    lemma_total_append(seq![30u16, 30u16, 30u16, 30u16, 30u16, 30u16, 30u16, 30u16, 15u16, 15u16] + seq![15u16, 15u16, 15u16, 15u16, 15u16, 15u16, 15u16, 4u16, 4u16, 4u16] + seq![4u16, 4u16, 4u16, 4u16, 4u16, 4u16, 4u16, 4u16, 4u16, 4u16] + seq![4u16, 4u16, 4u16, 4u16, 4u16, 4u16, 4u16, 4u16, 4u16, 4u16] + seq![4u16, 4u16, 4u16, 2u16, 75u16, 75u16, 75u16, 15u16, 10u16, 120u16] + seq![50u16, 20u16, 10u16, 4u16, 4u16, 4u16, 4u16, 4u16, 4u16, 4u16] + seq![4u16, 4u16, 4u16, 4u16, 4u16, 4u16, 4u16, 4u16, 4u16, 4u16], seq![4u16, 4u16, 4u16, 4u16, 4u16, 4u16, 4u16, 4u16, 4u16, 4u16]);
    lemma_total_append(seq![30u16, 30u16, 30u16, 30u16, 30u16, 30u16, 30u16, 30u16, 15u16, 15u16] + seq![15u16, 15u16, 15u16, 15u16, 15u16, 15u16, 15u16, 4u16, 4u16, 4u16] + seq![4u16, 4u16, 4u16, 4u16, 4u16, 4u16, 4u16, 4u16, 4u16, 4u16] + seq![4u16, 4u16, 4u16, 4u16, 4u16, 4u16, 4u16, 4u16, 4u16, 4u16] + seq![4u16, 4u16, 4u16, 2u16, 75u16, 75u16, 75u16, 15u16, 10u16, 120u16] + seq![50u16, 20u16, 10u16, 4u16, 4u16, 4u16, 4u16, 4u16, 4u16, 4u16] + seq![4u16, 4u16, 4u16, 4u16, 4u16, 4u16, 4u16, 4u16, 4u16, 4u16] + seq![4u16, 4u16, 4u16, 4u16, 4u16, 4u16, 4u16, 4u16, 4u16, 4u16], seq![3u16, 3u16, 3u16, 3u16, 3u16, 3u16, 3u16, 3u16, 3u16, 3u16]);
    lemma_total_append(seq![30u16, 30u16, 30u16, 30u16, 30u16, 30u16, 30u16, 30u16, 15u16, 15u16] + seq![15u16, 15u16, 15u16, 15u16, 15u16, 15u16, 15u16, 4u16, 4u16, 4u16] + seq![4u16, 4u16, 4u16, 4u16, 4u16, 4u16, 4u16, 4u16, 4u16, 4u16] + seq![4u16, 4u16, 4u16, 4u16, 4u16, 4u16, 4u16, 4u16, 4u16, 4u16] + seq![4u16, 4u16, 4u16, 2u16, 75u16, 75u16, 75u16, 15u16, 10u16, 120u16] + seq![50u16, 20u16, 10u16, 4u16, 4u16, 4u16, 4u16, 4u16, 4u16, 4u16] + seq![4u16, 4u16, 4u16, 4u16, 4u16, 4u16, 4u16, 4u16, 4u16, 4u16] + seq![4u16, 4u16, 4u16, 4u16, 4u16, 4u16, 4u16, 4u16, 4u16, 4u16] + seq![3u16, 3u16, 3u16, 3u16, 3u16, 3u16, 3u16, 3u16, 3u16, 3u16], seq![3u16, 3u16, 3u16, 3u16, 3u16, 3u16, 3u16, 3u16, 3u16, 3u16]);
    lemma_total_append(seq![30u16, 30u16, 30u16, 30u16, 30u16, 30u16, 30u16, 30u16, 15u16, 15u16] + seq![15u16, 15u16, 15u16, 15u16, 15u16, 15u16, 15u16, 4u16, 4u16, 4u16] + seq![4u16, 4u16, 4u16, 4u16, 4u16, 4u16, 4u16, 4u16, 4u16, 4u16] + seq![4u16, 4u16, 4u16, 4u16, 4u16, 4u16, 4u16, 4u16, 4u16, 4u16] + seq![4u16, 4u16, 4u16, 2u16, 75u16, 75u16, 75u16, 15u16, 10u16, 120u16] + seq![50u16, 20u16, 10u16, 4u16, 4u16, 4u16, 4u16, 4u16, 4u16, 4u16] + seq![4u16, 4u16, 4u16, 4u16, 4u16, 4u16, 4u16, 4u16, 4u16, 4u16] + seq![4u16, 4u16, 4u16, 4u16, 4u16, 4u16, 4u16, 4u16, 4u16, 4u16] + seq![3u16, 3u16, 3u16, 3u16, 3u16, 3u16, 3u16, 3u16, 3u16, 3u16] + seq![3u16, 3u16, 3u16, 3u16, 3u16, 3u16, 3u16, 3u16, 3u16, 3u16], seq![3u16, 3u16, 3u16, 3u16, 3u16, 3u16, 3u16, 3u16, 3u16, 3u16]);
    lemma_total_append(seq![30u16, 30u16, 30u16, 30u16, 30u16, 30u16, 30u16, 30u16, 15u16, 15u16] + seq![15u16, 15u16, 15u16, 15u16, 15u16, 15u16, 15u16, 4u16, 4u16, 4u16] + seq![4u16, 4u16, 4u16, 4u16, 4u16, 4u16, 4u16, 4u16, 4u16, 4u16] + seq![4u16, 4u16, 4u16, 4u16, 4u16, 4u16, 4u16, 4u16, 4u16, 4u16] + seq![4u16, 4u16, 4u16, 2u16, 75u16, 75u16, 75u16, 15u16, 10u16, 120u16] + seq![50u16, 20u16, 10u16, 4u16, 4u16, 4u16, 4u16, 4u16, 4u16, 4u16] + seq![4u16, 4u16, 4u16, 4u16, 4u16, 4u16, 4u16, 4u16, 4u16, 4u16] + seq![4u16, 4u16, 4u16, 4u16, 4u16, 4u16, 4u16, 4u16, 4u16, 4u16] + seq![3u16, 3u16, 3u16, 3u16, 3u16, 3u16, 3u16, 3u16, 3u16, 3u16] + seq![3u16, 3u16, 3u16, 3u16, 3u16, 3u16, 3u16, 3u16, 3u16, 3u16] + seq![3u16, 3u16, 3u16, 3u16, 3u16, 3u16, 3u16, 3u16, 3u16, 3u16], seq![3u16, 3u16, 3u16, 3u16, 3u16, 3u16, 3u16, 3u16, 3u16, 3u16]);
    lemma_total_append(seq![30u16, 30u16, 30u16, 30u16, 30u16, 30u16, 30u16, 30u16, 15u16, 15u16] + seq![15u16, 15u16, 15u16, 15u16, 15u16, 15u16, 15u16, 4u16, 4u16, 4u16] + seq![4u16, 4u16, 4u16, 4u16, 4u16, 4u16, 4u16, 4u16, 4u16, 4u16] + seq![4u16, 4u16, 4u16, 4u16, 4u16, 4u16, 4u16, 4u16, 4u16, 4u16] + seq![4u16, 4u16, 4u16, 2u16, 75u16, 75u16, 75u16, 15u16, 10u16, 120u16] + seq![50u16, 20u16, 10u16, 4u16, 4u16, 4u16, 4u16, 4u16, 4u16, 4u16] + seq![4u16, 4u16, 4u16, 4u16, 4u16, 4u16, 4u16, 4u16, 4u16, 4u16] + seq![4u16, 4u16, 4u16, 4u16, 4u16, 4u16, 4u16, 4u16, 4u16, 4u16] + seq![3u16, 3u16, 3u16, 3u16, 3u16, 3u16, 3u16, 3u16, 3u16, 3u16] + seq![3u16, 3u16, 3u16, 3u16, 3u16, 3u16, 3u16, 3u16, 3u16, 3u16] + seq![3u16, 3u16, 3u16, 3u16, 3u16, 3u16, 3u16, 3u16, 3u16, 3u16] + seq![3u16, 3u16, 3u16, 3u16, 3u16, 3u16, 3u16, 3u16, 3u16, 3u16], seq![3u16, 3u16, 2u16, 2u16, 2u16, 2u16, 2u16, 2u16, 2u16, 2u16]);
    lemma_total_append(seq![30u16, 30u16, 30u16, 30u16, 30u16, 30u16, 30u16, 30u16, 15u16, 15u16] + seq![15u16, 15u16, 15u16, 15u16, 15u16, 15u16, 15u16, 4u16, 4u16, 4u16] + seq![4u16, 4u16, 4u16, 4u16, 4u16, 4u16, 4u16, 4u16, 4u16, 4u16] + seq![4u16, 4u16, 4u16, 4u16, 4u16, 4u16, 4u16, 4u16, 4u16, 4u16] + seq![4u16, 4u16, 4u16, 2u16, 75u16, 75u16, 75u16, 15u16, 10u16, 120u16] + seq![50u16, 20u16, 10u16, 4u16, 4u16, 4u16, 4u16, 4u16, 4u16, 4u16] + seq![4u16, 4u16, 4u16, 4u16, 4u16, 4u16, 4u16, 4u16, 4u16, 4u16] + seq![4u16, 4u16, 4u16, 4u16, 4u16, 4u16, 4u16, 4u16, 4u16, 4u16] + seq![3u16, 3u16, 3u16, 3u16, 3u16, 3u16, 3u16, 3u16, 3u16, 3u16] + seq![3u16, 3u16, 3u16, 3u16, 3u16, 3u16, 3u16, 3u16, 3u16, 3u16] + seq![3u16, 3u16, 3u16, 3u16, 3u16, 3u16, 3u16, 3u16, 3u16, 3u16] + seq![3u16, 3u16, 3u16, 3u16, 3u16, 3u16, 3u16, 3u16, 3u16, 3u16] + seq![3u16, 3u16, 2u16, 2u16, 2u16, 2u16, 2u16, 2u16, 2u16, 2u16], seq![2u16, 2u16, 1u16, 1u16, 1u16, 1u16, 1u16, 1u16, 1u16, 1u16]);
    lemma_total_append(seq![30u16, 30u16, 30u16, 30u16, 30u16, 30u16, 30u16, 30u16, 15u16, 15u16] + seq![15u16, 15u16, 15u16, 15u16, 15u16, 15u16, 15u16, 4u16, 4u16, 4u16] + seq![4u16, 4u16, 4u16, 4u16, 4u16, 4u16, 4u16, 4u16, 4u16, 4u16] + seq![4u16, 4u16, 4u16, 4u16, 4u16, 4u16, 4u16, 4u16, 4u16, 4u16] + seq![4u16, 4u16, 4u16, 2u16, 75u16, 75u16, 75u16, 15u16, 10u16, 120u16] + seq![50u16, 20u16, 10u16, 4u16, 4u16, 4u16, 4u16, 4u16, 4u16, 4u16] + seq![4u16, 4u16, 4u16, 4u16, 4u16, 4u16, 4u16, 4u16, 4u16, 4u16] + seq![4u16, 4u16, 4u16, 4u16, 4u16, 4u16, 4u16, 4u16, 4u16, 4u16] + seq![3u16, 3u16, 3u16, 3u16, 3u16, 3u16, 3u16, 3u16, 3u16, 3u16] + seq![3u16, 3u16, 3u16, 3u16, 3u16, 3u16, 3u16, 3u16, 3u16, 3u16] + seq![3u16, 3u16, 3u16, 3u16, 3u16, 3u16, 3u16, 3u16, 3u16, 3u16] + seq![3u16, 3u16, 3u16, 3u16, 3u16, 3u16, 3u16, 3u16, 3u16, 3u16] + seq![3u16, 3u16, 2u16, 2u16, 2u16, 2u16, 2u16, 2u16, 2u16, 2u16] + seq![2u16, 2u16, 1u16, 1u16, 1u16, 1u16, 1u16, 1u16, 1u16, 1u16], seq![1u16, 1u16, 1u16, 1u16, 1u16]);
}

/// The item of the treasure box that a roll lands on, if any.
pub open spec fn box_pick(roll: int) -> Option<Seq<char>> {
    match picked_index(table_rarities(), roll) {
        Some(i) => Some(box_table()[i].0),
        None => None,
    }
}

/// The item of the treasure box that a roll lands on: the first whose running sum of
/// rarities exceeds the roll; none for a roll of 1198 or more.
pub fn box_item_for_roll(roll: u16) -> (r: Option<String>)
    ensures
        match r {
            Some(name) => box_pick(roll as int) == Some(name@),
            None => box_pick(roll as int) is None,
        },
        roll < 1198 ==> r is Some,
{
    let items = box_items();
    proof {
        lemma_table_total();
        assert(rarities(items@) =~= table_rarities());
        assert(prefix_sum(rarities(items@), items.len() as int) == 1198);
        if roll < 1198 {
            law_roll_below_total_picks(items@, roll as int);
        }
    }
    let r = pick_item(&items, roll);
    proof {
        if picked_index(table_rarities(), roll as int) is Some {
            let i = picked_index(table_rarities(), roll as int)->0;
            assert(item_views(items@)[i] == box_table()[i]);
        }
    }
    r
}

/// A random item of the treasure box, each as likely as its rarity out of the total.
pub fn get_box_item() -> (r: Option<String>)
    ensures
        r is Some,
        exists|roll: int| 0 <= roll < 1198 && #[trigger] box_pick(roll) == Some(r->0@),
{
    let items = box_items();
    proof {
        lemma_table_total();
        assert(rarities(items@) =~= table_rarities());
        assert(prefix_sum(rarities(items@), items.len() as int) == 1198);
    }
    let total_rarity = total_rarity(&items);
    let roll = random_u16_below(total_rarity);
    let r = box_item_for_roll(roll);
    assert(box_pick(roll as int) == Some(r->0@));
    r
}

/// Sums of rarities depend only on the rarities summed.
proof fn lemma_prefix_sum_agree(a: Seq<u16>, b: Seq<u16>, k: int)
    requires
        0 <= k <= a.len(),
        k <= b.len(),
        forall|i: int| 0 <= i < k ==> #[trigger] a[i] == b[i],
    ensures
        prefix_sum(a, k) == prefix_sum(b, k),
    decreases k,
{
    if k > 0 {
        lemma_prefix_sum_agree(a, b, k - 1);
    }
}

/// The Reviver Seed, the rarest seed with a rarity of 10, takes the rolls from 721 to 730;
/// the TM Metronome, with a rarity of 120, the rolls from 731 to 850.
pub proof fn law_reviver_seed_and_tm_metronome_rolls(roll: int)
    ensures
        721 <= roll < 731 ==> box_pick(roll) == Some("Reviver Seed"@),
        731 <= roll < 851 ==> box_pick(roll) == Some("TM Metronome"@),
{
    let c1 = seq![30u16, 30u16, 30u16, 30u16, 30u16, 30u16, 30u16, 30u16, 15u16, 15u16];
    let c2 = seq![15u16, 15u16, 15u16, 15u16, 15u16, 15u16, 15u16, 4u16, 4u16, 4u16];
    let c3 = seq![4u16, 4u16, 4u16, 4u16, 4u16, 4u16, 4u16, 4u16, 4u16, 4u16];
    let c4 = seq![4u16, 4u16, 4u16, 4u16, 4u16, 4u16, 4u16, 4u16, 4u16, 4u16];
    let c5 = seq![4u16, 4u16, 4u16, 2u16, 75u16, 75u16, 75u16, 15u16, 10u16, 120u16];
    let head = c1 + c2 + c3 + c4;
    let rs = table_rarities();
    assert(rs.subrange(0, 50) =~= head + c5);
    reveal_with_fuel(prefix_sum, 11);
    assert(rarity_total(c1) == 270);
    assert(rarity_total(c2) == 117);
    assert(rarity_total(c3) == 40);
    assert(rarity_total(c4) == 40);
    lemma_total_append(c1, c2);
    lemma_total_append(c1 + c2, c3);
    lemma_total_append(c1 + c2 + c3, c4);
    assert(rarity_total(head) == 467);
    assert(prefix_sum(c5, 8) == 254);
    assert(prefix_sum(c5, 9) == 264);
    assert(prefix_sum(c5, 10) == 384);
    lemma_prefix_sum_append(head, c5, 8);
    lemma_prefix_sum_append(head, c5, 9);
    lemma_prefix_sum_append(head, c5, 10);
    assert forall|i: int| 0 <= i < 50 implies #[trigger] rs[i] == (head + c5)[i] by {
        assert(rs.subrange(0, 50)[i] == rs[i]);
    }
    lemma_prefix_sum_agree(rs, head + c5, 48);
    lemma_prefix_sum_agree(rs, head + c5, 49);
    lemma_prefix_sum_agree(rs, head + c5, 50);
    assert(prefix_sum(rs, 48) == 721);
    assert(prefix_sum(rs, 49) == 731);
    assert(prefix_sum(rs, 50) == 851);
    lemma_table_total();
    if 721 <= roll < 731 {
        assert(lands_on(rs, roll, 48));
        let k = choose|k: int| lands_on(rs, roll, k);
        lemma_lands_on_unique(rs, roll, 48, k);
        assert(picked_index(rs, roll) == Some(48int));
        assert(box_table()[48].0 == "Reviver Seed"@);
    }
    if 731 <= roll < 851 {
        assert(lands_on(rs, roll, 49));
        let k = choose|k: int| lands_on(rs, roll, k);
        lemma_lands_on_unique(rs, roll, 49, k);
        assert(picked_index(rs, roll) == Some(49int));
        assert(box_table()[49].0 == "TM Metronome"@);
    }
}

} // verus!
